//! A text progress bar for the share of verified members.

use vstd::prelude::*;
use vstd::string::*;
use crate::text::{decimal_text, push_decimal};

verus! {

/// `a / b` rounded to the nearest whole number, halves up.
pub open spec fn round_div(a: nat, b: nat) -> nat
    recommends
        b > 0,
{
    (2 * a + b) / (2 * b)
}

pub open spec fn repeat(c: char, n: nat) -> Seq<char> {
    Seq::new(n, |i: int| c)
}

/// The bar for `current` out of `total`, `width` cells wide: filled cells for
/// the share done, rounded, then empty cells up to the width, then the share
/// in percent, rounded.
pub open spec fn progress_bar(current: nat, total: nat, width: nat) -> Seq<char> {
    if total == 0 {
        "["@ + repeat(' ', width) + "] 0%"@
    } else {
        let filled = round_div(current * width, total);
        let empty = if filled <= width {
            (width - filled) as nat
        } else {
            0
        };
        "["@ + repeat('\u{2588}', filled) + repeat('\u{2591}', empty) + "] "@ + decimal_text(
            round_div(current * 100, total),
        ) + "%"@
    }
}

fn push_repeated(out: &mut String, cell: &str, c: char, n: u128)
    requires
        cell@ == seq![c],
    ensures
        final(out)@ == old(out)@ + repeat(c, n as nat),
{
    let mut i: u128 = 0;
    while i < n
        invariant
            0 <= i <= n,
            cell@ == seq![c],
            out@ == old(out)@ + repeat(c, i as nat),
        decreases n - i,
    {
        out.append(cell);
        assert(repeat(c, (i + 1) as nat) =~= repeat(c, i as nat).push(c));
        i = i + 1;
    }
}

/// A bar such as `[██░░] 50%`; with nothing to count, an empty bar at 0%.
pub fn generate_progress_bar(current: usize, total: usize, width: usize) -> (r: String)
    requires
        current as int * width as int <= usize::MAX as int,
    ensures
        r@ == progress_bar(current as nat, total as nat, width as nat),
{
    proof {
        reveal_strlit("[");
        reveal_strlit(" ");
        reveal_strlit("] 0%");
        reveal_strlit("\u{2588}");
        reveal_strlit("\u{2591}");
        reveal_strlit("] ");
        reveal_strlit("%");
        assert(" "@ =~= seq![' ']);
        assert("\u{2588}"@ =~= seq!['\u{2588}']);
        assert("\u{2591}"@ =~= seq!['\u{2591}']);
    }
    let mut out = String::from_str("[");
    if total == 0 {
        push_repeated(&mut out, " ", ' ', width as u128);
        out.append("] 0%");
        return out;
    }
    let c = current as u128;
    let t = total as u128;
    let w = width as u128;
    assert(c * w <= usize::MAX) by (nonlinear_arith)
        requires
            current as int * width as int <= usize::MAX as int,
            c == current,
            w == width,
    ;
    let filled = (2 * (c * w) + t) / (2 * t);
    let empty = if filled <= w {
        w - filled
    } else {
        0
    };
    assert(c * 100 <= 100 * u64::MAX) by (nonlinear_arith)
        requires
            c <= usize::MAX,
    ;
    let percent = (2 * (c * 100) + t) / (2 * t);
    push_repeated(&mut out, "\u{2588}", '\u{2588}', filled);
    push_repeated(&mut out, "\u{2591}", '\u{2591}', empty);
    out.append("] ");
    push_decimal(&mut out, percent);
    out.append("%");
    out
}

} // verus!
