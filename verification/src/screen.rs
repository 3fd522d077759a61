//! The decisions behind the screen: which track the player bar shows, how wide
//! the side pane is, and the text and placement of the volume.

use vstd::prelude::*;
use crate::number_drawer::{drawable, drawn_height, glyph_rows, lemma_digit_glyph};
use crate::text::push_char;

verus! {

/// The character of a decimal digit.
pub open spec fn digit_char(d: nat) -> char {
    if d == 0 { '0' } else if d == 1 { '1' } else if d == 2 { '2' } else if d == 3 { '3' }
    else if d == 4 { '4' } else if d == 5 { '5' } else if d == 6 { '6' } else if d == 7 { '7' }
    else if d == 8 { '8' } else { '9' }
}

/// The decimal digits of `n`, without leading zeros (`"0"` for zero).
pub open spec fn decimal(n: nat) -> Seq<char>
    decreases n,
{
    if n < 10 {
        seq![digit_char(n)]
    } else {
        decimal(n / 10).push(digit_char(n % 10))
    }
}

/// The volume as shown: its decimal digits, with a leading `0` below ten so
/// that there are at least two.
pub open spec fn volume_label_spec(tenths: nat) -> Seq<char> {
    if tenths < 10 {
        seq!['0', digit_char(tenths)]
    } else {
        decimal(tenths)
    }
}

/// The character of a digit below ten.
fn digit_char_exec(d: u32) -> (res: char)
    requires
        d < 10,
    ensures
        res == digit_char(d as nat),
{
    if d == 0 { '0' } else if d == 1 { '1' } else if d == 2 { '2' } else if d == 3 { '3' }
    else if d == 4 { '4' } else if d == 5 { '5' } else if d == 6 { '6' } else if d == 7 { '7' }
    else if d == 8 { '8' } else { '9' }
}

/// Appends the decimal digits of `n`.
fn push_decimal(out: &mut String, n: u32)
    ensures
        final(out)@ == old(out)@ + decimal(n as nat),
    decreases n,
{
    if n < 10 {
        push_char(out, digit_char_exec(n));
    } else {
        push_decimal(out, n / 10);
        push_char(out, digit_char_exec(n % 10));
        assert(decimal(n as nat) == decimal((n / 10) as nat).push(digit_char((n % 10) as nat)));
    }
}

/// Below four full volumes the label is two digits, the first at most 3,
/// and so every glyph has at least as many rows as the first: it can be drawn.
pub proof fn lemma_volume_label_drawable(tenths: nat)
    requires
        tenths < 40,
    ensures
        drawable(volume_label_spec(tenths)),
{
    let l = volume_label_spec(tenths);
    let a: nat = if tenths < 10 { 0 } else { tenths / 10 };
    let b: nat = tenths % 10;
    if tenths >= 10 {
        assert(decimal(tenths / 10) == seq![digit_char(tenths / 10)]);
    }
    assert(l =~= seq![digit_char(a), digit_char(b)]);
    lemma_digit_glyph(digit_char(a));
    lemma_digit_glyph(digit_char(b));
    assert(drawn_height(l) == 7);
    assert forall|i: int| 0 <= i < l.len() implies #[trigger] glyph_rows(l[i]).len() >= drawn_height(l) by {}
}

/// The volume's text, in tenths: two digits at least; below four full volumes
/// it can be drawn in large digits.
pub fn volume_label(tenths: u32) -> (res: String)
    ensures
        res@ == volume_label_spec(tenths as nat),
        tenths < 40 ==> drawable(res@),
{
    let mut out = String::new();
    if tenths < 10 {
        push_char(&mut out, '0');
    }
    push_decimal(&mut out, tenths);
    assert(out@ =~= volume_label_spec(tenths as nat));
    if tenths < 40 {
        proof {
            lemma_volume_label_drawable(tenths as nat);
        }
    }
    out
}

/// The track the player bar shows: the current one, or the ninth when none
/// is current, and none when that index is past the library.
pub open spec fn shown_track_spec(current: Option<usize>, len: nat) -> Option<usize> {
    let index: usize = match current {
        Some(i) => i,
        None => 8,
    };
    if index < len { Some(index) } else { None }
}

/// Which track the player bar shows.
pub fn shown_track(current: Option<usize>, len: usize) -> (res: Option<usize>)
    ensures
        res == shown_track_spec(current, len as nat),
{
    let index = match current {
        Some(i) => i,
        None => 8,
    };
    if index < len { Some(index) } else { None }
}

/// Terminals narrower than this show no side pane.
pub const NARROW_WIDTH: u16 = 120;

/// The share, in percent, of the width that the side pane takes.
pub fn side_pane_percentage(width: u16) -> (res: u16)
    ensures
        res == (if width < NARROW_WIDTH { 0u16 } else { 25u16 }),
{
    if width < NARROW_WIDTH { 0 } else { 25 }
}

/// The left and top padding of the volume digits in an area of the given size:
/// half of each side, less 5 when both sides exceed 10.
pub fn volume_padding(width: u16, height: u16) -> (res: (u16, u16))
    ensures
        (width > 10 && height > 10) ==> res == ((width / 2 - 5) as u16, (height / 2 - 5) as u16),
        !(width > 10 && height > 10) ==> res == (width / 2, height / 2),
{
    let mut spacer: u16 = 0;
    if width > 10 && height > 10 {
        spacer = 5;
    }
    (width / 2 - spacer, height / 2 - spacer)
}

} // verus!
