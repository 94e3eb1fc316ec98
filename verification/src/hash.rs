//! Content hashing: the streaming MD5 state, the hex form of a digest, and
//! the comparison of a computed digest with the one a manifest declares.

use crate::text::chars_of;
use vstd::prelude::*;

verus! {

/// The streaming MD5 state of the `md5` crate.
#[verifier::external_type_specification]
#[verifier::external_body]
pub struct ExMd5Context(md5::Context);

/// The bytes that a hashing context has consumed so far, in the order in
/// which it consumed them.
pub uninterp spec fn absorbed(ctx: md5::Context) -> Seq<u8>;

/// The MD5 digest of a byte string.
pub uninterp spec fn md5_digest(data: Seq<u8>) -> Seq<u8>;

/// `md5::Context::new`. Trusted: a fresh context has consumed nothing.
#[verifier::external_body]
pub(crate) fn hasher_new() -> (ctx: md5::Context)
    ensures
        absorbed(ctx) == Seq::<u8>::empty(),
{
    md5::Context::new()
}

/// `md5::Context::consume`. Trusted: the context has then consumed `data`
/// after everything it had consumed before.
#[verifier::external_body]
pub(crate) fn hasher_consume(ctx: &mut md5::Context, data: &[u8])
    ensures
        absorbed(*final(ctx)) == absorbed(*old(ctx)) + data@,
{
    ctx.consume(data)
}

/// `md5::Context::compute`. Trusted: the sixteen bytes returned are the MD5
/// digest of everything the context consumed.
#[verifier::external_body]
pub(crate) fn hasher_compute(ctx: md5::Context) -> (digest: [u8; 16])
    ensures
        digest@ == md5_digest(absorbed(ctx)),
{
    ctx.compute().0
}

/// The lower-case hex digit for a value below sixteen.
pub open spec fn hex_digit(n: int) -> char {
    if n == 0 {
        '0'
    } else if n == 1 {
        '1'
    } else if n == 2 {
        '2'
    } else if n == 3 {
        '3'
    } else if n == 4 {
        '4'
    } else if n == 5 {
        '5'
    } else if n == 6 {
        '6'
    } else if n == 7 {
        '7'
    } else if n == 8 {
        '8'
    } else if n == 9 {
        '9'
    } else if n == 10 {
        'a'
    } else if n == 11 {
        'b'
    } else if n == 12 {
        'c'
    } else if n == 13 {
        'd'
    } else if n == 14 {
        'e'
    } else {
        'f'
    }
}

/// Two lower-case hex digits per byte, high nibble first.
pub open spec fn hex_of(bytes: Seq<u8>) -> Seq<char> {
    Seq::new(
        2 * bytes.len(),
        |i: int|
            if i % 2 == 0 {
                hex_digit(bytes[i / 2] as int / 16)
            } else {
                hex_digit(bytes[i / 2] as int % 16)
            },
    )
}

/// A hex digit with its case removed: `A` to `F` become `a` to `f`, every
/// other character stands for itself.
pub open spec fn fold_hex(c: char) -> char {
    if c == 'A' {
        'a'
    } else if c == 'B' {
        'b'
    } else if c == 'C' {
        'c'
    } else if c == 'D' {
        'd'
    } else if c == 'E' {
        'e'
    } else if c == 'F' {
        'f'
    } else {
        c
    }
}

/// Two hex strings denote the same digest: they are equal once the case of
/// their digits is removed.
pub open spec fn same_hex(a: Seq<char>, b: Seq<char>) -> bool {
    a.map_values(|c: char| fold_hex(c)) == b.map_values(|c: char| fold_hex(c))
}

fn hex_piece(n: u8) -> (piece: &'static str)
    requires
        n < 16,
    ensures
        piece@ == seq![hex_digit(n as int)],
{
    proof {
        reveal_strlit("0");
        reveal_strlit("1");
        reveal_strlit("2");
        reveal_strlit("3");
        reveal_strlit("4");
        reveal_strlit("5");
        reveal_strlit("6");
        reveal_strlit("7");
        reveal_strlit("8");
        reveal_strlit("9");
        reveal_strlit("a");
        reveal_strlit("b");
        reveal_strlit("c");
        reveal_strlit("d");
        reveal_strlit("e");
        reveal_strlit("f");
    }
    let piece = if n == 0 {
        "0"
    } else if n == 1 {
        "1"
    } else if n == 2 {
        "2"
    } else if n == 3 {
        "3"
    } else if n == 4 {
        "4"
    } else if n == 5 {
        "5"
    } else if n == 6 {
        "6"
    } else if n == 7 {
        "7"
    } else if n == 8 {
        "8"
    } else if n == 9 {
        "9"
    } else if n == 10 {
        "a"
    } else if n == 11 {
        "b"
    } else if n == 12 {
        "c"
    } else if n == 13 {
        "d"
    } else if n == 14 {
        "e"
    } else {
        "f"
    };
    assert(piece@ =~= seq![hex_digit(n as int)]);
    piece
}

/// The lower-case hex form of `bytes`.
pub fn to_hex(bytes: &[u8]) -> (hex: String)
    ensures
        hex@ == hex_of(bytes@),
{
    let mut hex = String::new();
    let mut i: usize = 0;
    while i < bytes.len()
        invariant
            i <= bytes.len(),
            hex@ == hex_of(bytes@.take(i as int)),
        decreases bytes.len() - i,
    {
        let b: u8 = bytes[i];
        hex.append(hex_piece(b / 16));
        hex.append(hex_piece(b % 16));
        assert(hex@ =~= hex_of(bytes@.take(i + 1)));
        i += 1;
    }
    assert(bytes@.take(i as int) =~= bytes@);
    hex
}

fn fold_hex_char(c: char) -> (folded: char)
    ensures
        folded == fold_hex(c),
{
    if c == 'A' {
        'a'
    } else if c == 'B' {
        'b'
    } else if c == 'C' {
        'c'
    } else if c == 'D' {
        'd'
    } else if c == 'E' {
        'e'
    } else if c == 'F' {
        'f'
    } else {
        c
    }
}

/// Whether two hex strings denote the same digest, whatever the case of
/// their digits.
pub fn hex_matches(a: &str, b: &str) -> (same: bool)
    ensures
        same == same_hex(a@, b@),
{
    let left = chars_of(a);
    let right = chars_of(b);
    let ghost fold = |c: char| fold_hex(c);
    if left.len() != right.len() {
        assert(a@.map_values(fold).len() != b@.map_values(fold).len());
        return false;
    }
    let mut i: usize = 0;
    while i < left.len()
        invariant
            i <= left.len(),
            left.len() == right.len(),
            left@ == a@,
            right@ == b@,
            fold == (|c: char| fold_hex(c)),
            forall|k: int| 0 <= k < i ==> fold_hex(a@[k]) == fold_hex(b@[k]),
        decreases left.len() - i,
    {
        if fold_hex_char(left[i]) != fold_hex_char(right[i]) {
            assert(a@.map_values(fold)[i as int] != b@.map_values(fold)[i as int]);
            return false;
        }
        i += 1;
    }
    assert(a@.map_values(fold) =~= b@.map_values(fold));
    true
}

} // verus!
