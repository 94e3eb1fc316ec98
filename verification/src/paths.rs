//! Destination paths. A manifest names each file by a relative path with
//! forward slashes; before anything is written that path is resolved against
//! the output root, and rejected if it would leave it.

use crate::text::chars_of;
use vstd::prelude::*;
use vstd::string::StrSliceExecFns;

verus! {

/// The pieces of `path` between its slashes. A path without a slash is one
/// piece; a path that ends in a slash ends in an empty piece.
pub open spec fn segments(path: Seq<char>) -> Seq<Seq<char>>
    decreases path.len(),
{
    if path.len() == 0 {
        seq![Seq::<char>::empty()]
    } else {
        let before = segments(path.drop_last());
        if path.last() == '/' {
            before.push(Seq::<char>::empty())
        } else {
            before.drop_last().push(before.last().push(path.last()))
        }
    }
}

/// A piece that names nothing: empty, or a single dot.
pub open spec fn is_blank(piece: Seq<char>) -> bool {
    piece.len() == 0 || piece == seq!['.']
}

/// The piece that names the parent directory.
pub open spec fn is_parent(piece: Seq<char>) -> bool {
    piece == seq!['.', '.']
}

/// Follows `pieces` from the directory `stack` below the root. Blank pieces
/// stay, a parent piece leaves the innermost directory, any other piece
/// enters it. `None` as soon as a parent piece is met at the root itself.
pub open spec fn walk(stack: Seq<Seq<char>>, pieces: Seq<Seq<char>>) -> Option<Seq<Seq<char>>>
    decreases pieces.len(),
{
    if pieces.len() == 0 {
        Some(stack)
    } else if is_blank(pieces[0]) {
        walk(stack, pieces.drop_first())
    } else if is_parent(pieces[0]) {
        if stack.len() == 0 {
            None
        } else {
            walk(stack.drop_last(), pieces.drop_first())
        }
    } else {
        walk(stack.push(pieces[0]), pieces.drop_first())
    }
}

/// The components of the file that `path` names below the output root, or
/// `None` if the path is absolute, climbs above the root at any point, or
/// names the root itself.
pub open spec fn resolve_path(path: Seq<char>) -> Option<Seq<Seq<char>>> {
    if path.len() > 0 && path[0] == '/' {
        None
    } else {
        match walk(Seq::empty(), segments(path)) {
            Some(stack) => if stack.len() > 0 {
                Some(stack)
            } else {
                None
            },
            None => None,
        }
    }
}

/// A piece that names a file or a directory: neither blank nor the parent
/// piece, and without a slash.
pub open spec fn is_plain(piece: Seq<char>) -> bool {
    !is_blank(piece) && !is_parent(piece) && !piece.contains('/')
}

/// `pieces` put together again with a slash between each two.
pub open spec fn joined(pieces: Seq<Seq<char>>) -> Seq<char>
    decreases pieces.len(),
{
    if pieces.len() == 0 {
        Seq::empty()
    } else if pieces.len() == 1 {
        pieces[0]
    } else {
        joined(pieces.drop_last()) + seq!['/'] + pieces.last()
    }
}

/// A path has at least one piece, and no piece holds a slash.
pub proof fn lemma_segments_hold_no_slash(path: Seq<char>)
    ensures
        segments(path).len() >= 1,
        forall|i: int| 0 <= i < segments(path).len() ==> !(#[trigger] segments(path)[i]).contains('/'),
    decreases path.len(),
{
    if path.len() > 0 {
        let before = segments(path.drop_last());
        lemma_segments_hold_no_slash(path.drop_last());
        if path.last() != '/' {
            let grown = before.last().push(path.last());
            assert(!grown.contains('/')) by {
                if grown.contains('/') {
                    let k = choose|k: int| 0 <= k < grown.len() && grown[k] == '/';
                    assert(before.last()[k] == '/');
                    assert(before.last().contains('/'));
                }
            }
        }
    }
}

/// Splitting loses nothing: the pieces of a path, joined with slashes, are
/// the path.
pub proof fn lemma_segments_rejoin(path: Seq<char>)
    ensures
        joined(segments(path)) == path,
    decreases path.len(),
{
    if path.len() == 0 {
        assert(joined(segments(path)) =~= path);
    } else {
        let before = segments(path.drop_last());
        lemma_segments_rejoin(path.drop_last());
        lemma_segments_hold_no_slash(path.drop_last());
        if path.last() == '/' {
            let after = before.push(Seq::<char>::empty());
            assert(after.drop_last() =~= before);
            assert(joined(after) =~= path);
        } else {
            let after = before.drop_last().push(before.last().push(path.last()));
            assert(after.drop_last() =~= before.drop_last());
            if after.len() == 1 {
                assert(joined(after) =~= path);
            } else {
                assert(joined(after) =~= joined(before).push(path.last()));
                assert(joined(after) =~= path);
            }
        }
    }
}

/// Following pieces without slashes from plain directories ends, if it ends
/// below or at the root, in plain directories.
pub proof fn lemma_walk_ends_plain(stack: Seq<Seq<char>>, pieces: Seq<Seq<char>>)
    requires
        forall|i: int| 0 <= i < stack.len() ==> is_plain(#[trigger] stack[i]),
        forall|i: int| 0 <= i < pieces.len() ==> !(#[trigger] pieces[i]).contains('/'),
    ensures
        walk(stack, pieces) matches Some(end) ==> forall|i: int|
            0 <= i < end.len() ==> is_plain(#[trigger] end[i]),
    decreases pieces.len(),
{
    if pieces.len() > 0 {
        let rest = pieces.drop_first();
        assert forall|i: int| 0 <= i < rest.len() implies !(#[trigger] rest[i]).contains('/') by {
            assert(rest[i] == pieces[i + 1]);
        }
        if is_blank(pieces[0]) {
            lemma_walk_ends_plain(stack, rest);
        } else if is_parent(pieces[0]) {
            if stack.len() > 0 {
                lemma_walk_ends_plain(stack.drop_last(), rest);
            }
        } else {
            lemma_walk_ends_plain(stack.push(pieces[0]), rest);
        }
    }
}

/// A resolved destination stays below the output root: it has a file name,
/// and every component is a plain name, so that entering the components one
/// after the other from the root never leaves it.
pub proof fn lemma_resolved_stays_below_root(path: Seq<char>)
    ensures
        resolve_path(path) matches Some(components) ==> components.len() > 0 && forall|i: int|
            0 <= i < components.len() ==> is_plain(#[trigger] components[i]),
{
    lemma_segments_hold_no_slash(path);
    lemma_walk_ends_plain(Seq::empty(), segments(path));
}

/// A destination whose first piece is the parent piece is refused, whatever
/// follows.
pub proof fn lemma_leading_parent_is_refused(path: Seq<char>)
    requires
        is_parent(segments(path)[0]),
    ensures
        resolve_path(path) is None,
{
    let first = segments(path)[0];
    lemma_segments_hold_no_slash(path);
    assert(first.len() == 2);
    assert(first != seq!['.']);
    assert(walk(Seq::empty(), segments(path)) is None);
}

/// The character sequences that a list of strings holds.
pub open spec fn texts(list: Seq<String>) -> Seq<Seq<char>> {
    list.map_values(|s: String| s@)
}

/// Splits `path` at its slashes.
pub fn split_segments(path: &str) -> (pieces: Vec<String>)
    ensures
        texts(pieces@) == segments(path@),
{
    let chars = chars_of(path);
    let mut pieces: Vec<String> = Vec::new();
    let mut start: usize = 0;
    let mut i: usize = 0;
    assert(path@.take(0) =~= Seq::<char>::empty());
    assert(texts(pieces@).push(path@.subrange(0, 0)) =~= segments(path@.take(0)));
    while i < chars.len()
        invariant
            chars@ == path@,
            start <= i <= chars.len(),
            texts(pieces@).push(path@.subrange(start as int, i as int)) == segments(
                path@.take(i as int),
            ),
        decreases chars.len() - i,
    {
        let ghost before = segments(path@.take(i as int));
        let ghost next = path@.take(i + 1);
        assert(next.drop_last() =~= path@.take(i as int));
        assert(next.last() == path@[i as int]);
        if chars[i] == '/' {
            let piece = path.substring_char(start, i).to_owned();
            let ghost old_pieces = pieces@;
            pieces.push(piece);
            assert(texts(pieces@) =~= texts(old_pieces).push(piece@));
            start = i + 1;
            assert(path@.subrange(start as int, start as int) =~= Seq::<char>::empty());
        } else {
            assert(before.drop_last() =~= texts(pieces@));
            assert(before.last().push(path@[i as int]) =~= path@.subrange(
                start as int,
                i + 1,
            ));
        }
        i += 1;
    }
    assert(path@.take(i as int) =~= path@);
    let piece = path.substring_char(start, i).to_owned();
    let ghost old_pieces = pieces@;
    pieces.push(piece);
    assert(texts(pieces@) =~= texts(old_pieces).push(piece@));
    pieces
}

fn piece_is_blank(piece: &str) -> (blank: bool)
    ensures
        blank == is_blank(piece@),
{
    let chars = chars_of(piece);
    if chars.len() == 0 {
        true
    } else if chars.len() == 1 {
        assert(chars@ =~= seq![chars@[0]]);
        chars[0] == '.'
    } else {
        false
    }
}

fn piece_is_parent(piece: &str) -> (parent: bool)
    ensures
        parent == is_parent(piece@),
{
    let chars = chars_of(piece);
    if chars.len() == 2 {
        assert(chars@ =~= seq![chars@[0], chars@[1]]);
        chars[0] == '.' && chars[1] == '.'
    } else {
        false
    }
}

fn starts_at_root(path: &str) -> (absolute: bool)
    ensures
        absolute == (path@.len() > 0 && path@[0] == '/'),
{
    let chars = chars_of(path);
    chars.len() > 0 && chars[0] == '/'
}

/// Resolves a destination against the output root. The result lists the
/// directories to enter below the root and, last, the file's name; `None`
/// means that the destination is not a file below the root.
pub fn safe_components(path: &str) -> (found: Option<Vec<String>>)
    ensures
        match found {
            Some(list) => resolve_path(path@) == Some(texts(list@)),
            None => resolve_path(path@) is None,
        },
{
    if starts_at_root(path) {
        return None;
    }
    let pieces = split_segments(path);
    let mut stack: Vec<String> = Vec::new();
    let mut i: usize = 0;
    assert(texts(pieces@).skip(0) =~= texts(pieces@));
    assert(texts(stack@) =~= Seq::<Seq<char>>::empty());
    while i < pieces.len()
        invariant
            i <= pieces.len(),
            texts(pieces@) == segments(path@),
            walk(texts(stack@), texts(pieces@).skip(i as int)) == walk(
                Seq::empty(),
                segments(path@),
            ),
        decreases pieces.len() - i,
    {
        let ghost rest = texts(pieces@).skip(i as int);
        assert(rest[0] == pieces@[i as int]@);
        assert(rest.drop_first() =~= texts(pieces@).skip(i + 1));
        let piece = &pieces[i];
        if piece_is_blank(piece.as_str()) {
        } else if piece_is_parent(piece.as_str()) {
            if stack.len() == 0 {
                return None;
            }
            let ghost old_stack = stack@;
            stack.pop();
            assert(texts(stack@) =~= texts(old_stack).drop_last());
        } else {
            let ghost old_stack = stack@;
            let kept = piece.clone();
            stack.push(kept);
            assert(texts(stack@) =~= texts(old_stack).push(rest[0]));
        }
        i += 1;
    }
    assert(texts(pieces@).skip(i as int).len() == 0);
    if stack.len() == 0 {
        None
    } else {
        Some(stack)
    }
}

} // verus!
