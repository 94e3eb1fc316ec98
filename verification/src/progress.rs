//! Progress of one transfer: how many bytes have arrived, and of how many,
//! where the server said so.

use vstd::prelude::*;
use vstd::string::StringExecFns;

verus! {

/// A progress report, made after every chunk received.
#[derive(Debug, Clone, Copy, PartialEq, Eq)]
pub struct Progress {
    /// Bytes received so far.
    pub received: u64,
    /// The length the server announced, if it announced one.
    pub total: Option<u64>,
}

/// The part of `scale` that `received` out of `total` amounts to, rounded
/// down and never more than `scale`.
pub open spec fn share(received: int, total: int, scale: int) -> int
    recommends
        total > 0,
        received >= 0,
        scale >= 0,
{
    if received >= total {
        scale
    } else {
        received * scale / total
    }
}

/// A bar of `width` cells of which the first `filled` are drawn as `=` and
/// the others as blanks.
pub open spec fn bar_of(filled: int, width: int) -> Seq<char> {
    Seq::new(
        width as nat,
        |i: int|
            if i < filled {
                '='
            } else {
                ' '
            },
    )
}

/// Draws a bar of `width` cells of which `filled` are filled.
pub fn draw_bar(filled: u32, width: u32) -> (bar: String)
    requires
        filled <= width,
    ensures
        bar@ == bar_of(filled as int, width as int),
{
    proof {
        reveal_strlit("=");
        reveal_strlit(" ");
    }
    let mut bar = String::new();
    let mut i: u32 = 0;
    while i < width
        invariant
            i <= width,
            "="@ == seq!['='],
            " "@ == seq![' '],
            bar@ == bar_of(filled as int, i as int),
        decreases width - i,
    {
        if i < filled {
            bar.append("=");
        } else {
            bar.append(" ");
        }
        assert(bar@ =~= bar_of(filled as int, i + 1));
        i += 1;
    }
    bar
}

impl Progress {
    /// A share of the whole can be given: the total is known and not zero.
    pub open spec fn measurable(&self) -> bool {
        self.total matches Some(t) && t > 0
    }

    /// Completion in hundredths of a percent, from 0 to 10000, or `None`
    /// where the total is unknown or zero.
    pub fn percent_hundredths(&self) -> (out: Option<u64>)
        ensures
            self.measurable() ==> (out matches Some(part) && part == share(
                self.received as int,
                self.total.unwrap() as int,
                10000,
            )),
            !self.measurable() ==> out is None,
    {
        match self.total {
            Some(total) => {
                if total == 0 {
                    None
                } else if self.received >= total {
                    Some(10000)
                } else {
                    let scaled: u128 = self.received as u128 * 10000u128;
                    let part: u128 = scaled / (total as u128);
                    assert(part <= 10000) by (nonlinear_arith)
                        requires
                            part == scaled / (total as u128),
                            scaled == self.received * 10000,
                            self.received < total,
                            total > 0,
                    ;
                    Some(part as u64)
                }
            },
            None => None,
        }
    }

    /// How many cells of a bar of `width` cells are filled, or `None` where
    /// the total is unknown or zero.
    pub fn bar_cells(&self, width: u32) -> (out: Option<u32>)
        ensures
            self.measurable() ==> (out matches Some(filled) && filled == share(
                self.received as int,
                self.total.unwrap() as int,
                width as int,
            )),
            !self.measurable() ==> out is None,
            out matches Some(filled) ==> filled <= width,
    {
        match self.total {
            Some(total) => {
                if total == 0 {
                    None
                } else if self.received >= total {
                    Some(width)
                } else {
                    assert(self.received * width <= u128::MAX) by (nonlinear_arith)
                        requires
                            self.received <= u64::MAX,
                            width <= u32::MAX,
                    ;
                    let scaled: u128 = self.received as u128 * (width as u128);
                    let part: u128 = scaled / (total as u128);
                    assert(part <= width) by (nonlinear_arith)
                        requires
                            part == scaled / (total as u128),
                            scaled == self.received * width,
                            self.received < total,
                            total > 0,
                    ;
                    Some(part as u32)
                }
            },
            None => None,
        }
    }

    /// The bar of `width` cells for this report, or `None` where the total
    /// is unknown or zero and only the byte count can be shown.
    pub fn bar(&self, width: u32) -> (out: Option<String>)
        ensures
            self.measurable() ==> (out matches Some(text) && text@ == bar_of(
                share(self.received as int, self.total.unwrap() as int, width as int),
                width as int,
            )),
            !self.measurable() ==> out is None,
    {
        match self.bar_cells(width) {
            Some(filled) => Some(draw_bar(filled, width)),
            None => None,
        }
    }
}

} // verus!
