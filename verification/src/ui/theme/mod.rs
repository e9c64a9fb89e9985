//! Theme helpers: the icon set and bars drawn with block characters.
use vstd::prelude::*;
use crate::text::push_char;

pub mod icons;

verus! {

/// `n` copies of `c`.
pub open spec fn repeat_char(c: char, n: nat) -> Seq<char> {
    Seq::new(n, |i: int| c)
}

/// Appends `n` copies of `c` to `s`.
fn push_repeated(s: &mut String, c: char, n: usize)
    ensures
        final(s)@ == old(s)@ + repeat_char(c, n as nat),
{
    let mut k: usize = 0;
    while k < n
        invariant
            k <= n,
            s@ == old(s)@ + repeat_char(c, k as nat),
        decreases n - k,
    {
        push_char(s, c);
        assert(old(s)@ + repeat_char(c, (k + 1) as nat) =~= (old(s)@ + repeat_char(c, k as nat)).push(c));
        k = k + 1;
    }
}

/// The gradient bar of `width` characters: seven bands `░▒▓█▓▒░`, each
/// `width / 7` wide but the middle one, which takes the rest.
pub open spec fn gradient(width: nat) -> Seq<char> {
    let s = width / 7;
    repeat_char('░', s) + repeat_char('▒', s) + repeat_char('▓', s) + repeat_char(
        '█',
        (width - 6 * s) as nat,
    ) + repeat_char('▓', s) + repeat_char('▒', s) + repeat_char('░', s)
}

/// Creates a gradient bar of the given width.
pub fn gradient_bar(width: usize) -> (r: String)
    ensures
        r@ == gradient(width as nat),
        r@.len() == width,
{
    let s = width / 7;
    let mut result = String::new();
    push_repeated(&mut result, '░', s);
    push_repeated(&mut result, '▒', s);
    push_repeated(&mut result, '▓', s);
    push_repeated(&mut result, '█', width - 6 * s);
    push_repeated(&mut result, '▓', s);
    push_repeated(&mut result, '▒', s);
    push_repeated(&mut result, '░', s);
    assert(result@ =~= gradient(width as nat));
    result
}

/// A progress bar of `width` cells whose first `filled` cells are full.
pub open spec fn bar(filled: nat, width: nat) -> Seq<char> {
    repeat_char('█', filled) + repeat_char('░', if width > filled { (width - filled) as nat } else { 0 })
}

/// Draws a progress bar: `filled` full cells, then empty cells up to `width`.
pub fn bar_of(filled: usize, width: usize) -> (r: String)
    ensures
        r@ == bar(filled as nat, width as nat),
{
    let mut result = String::new();
    push_repeated(&mut result, '█', filled);
    let empty = width.saturating_sub(filled);
    push_repeated(&mut result, '░', empty);
    assert(result@ =~= bar(filled as nat, width as nat));
    result
}

} // verus!
