//! Pixels and the brightness ramp that maps them to characters.

use vstd::prelude::*;
use vstd::string::StrSliceExecFns;

verus! {

/// One pixel: red, green, blue and alpha, eight bits each, in that order.
#[derive(Clone, Copy, Debug, PartialEq, Eq)]
pub struct Rgba(pub [u8; 4]);

/// The brightness ramp as text, darkest character first.
pub const ASCII_CHARS: &'static str =
    " .'`^\",:;Il!i><~+_-?][}{1)(|\\/tfjrxnuvczXYUJCLQ0OZmwqpdbkhao*#MW&8%B@$";

/// Number of characters in the brightness ramp.
pub const RAMP_LEN: u32 = 70;

/// The brightness ramp: seventy printable characters, index 0 the darkest
/// (a space) and index 69 the brightest.
pub open spec fn ramp() -> Seq<char> {
    seq![
        ' ', '.', '\'', '`', '^', '"', ',', ':', ';', 'I',
        'l', '!', 'i', '>', '<', '~', '+', '_', '-', '?',
        ']', '[', '}', '{', '1', ')', '(', '|', '\\', '/',
        't', 'f', 'j', 'r', 'x', 'n', 'u', 'v', 'c', 'z',
        'X', 'Y', 'U', 'J', 'C', 'L', 'Q', '0', 'O', 'Z',
        'm', 'w', 'q', 'p', 'd', 'b', 'k', 'h', 'a', 'o',
        '*', '#', 'M', 'W', '&', '8', '%', 'B', '@', '$',
    ]
}

/// Mean of the three colour channels, rounded down.
pub open spec fn brightness(red: u8, green: u8, blue: u8) -> int {
    (red + green + blue) / 3
}

/// Position in the ramp of the character for a colour: the brightness
/// modulo the length of the ramp, never negative.
pub open spec fn ramp_index(red: u8, green: u8, blue: u8) -> int {
    brightness(red, green, blue) % (RAMP_LEN as int)
}

/// The character that stands for a pixel. The alpha channel plays no part.
pub open spec fn glyph(pixel: Rgba) -> char {
    ramp()[ramp_index(pixel.0[0], pixel.0[1], pixel.0[2])]
}

/// The text of the ramp is the ramp.
pub proof fn lemma_ramp_text()
    ensures
        ASCII_CHARS@ == ramp(),
        ramp().len() == RAMP_LEN,
{
    reveal_strlit(" .'`^\",:;Il!i><~+_-?][}{1)(|\\/tfjrxnuvczXYUJCLQ0OZmwqpdbkhao*#MW&8%B@$");
    assert(ASCII_CHARS@ =~= ramp());
}

/// Pixels that agree in red, green and blue have the same character,
/// whatever their alpha channels hold.
pub proof fn lemma_alpha_ignored(first: Rgba, second: Rgba)
    requires
        first.0[0] == second.0[0],
        first.0[1] == second.0[1],
        first.0[2] == second.0[2],
    ensures
        glyph(first) == glyph(second),
{
}

/// Pixels whose red, green and blue channels have the same mean, that is the
/// same sum, have the same character.
pub proof fn lemma_equal_mean_same_glyph(first: Rgba, second: Rgba)
    requires
        first.0[0] + first.0[1] + first.0[2] == second.0[0] + second.0[1] + second.0[2],
    ensures
        glyph(first) == glyph(second),
{
}

/// Maps a pixel to the character of the ramp that matches its brightness.
pub fn get_char(pixel: &Rgba) -> (c: char)
    ensures
        c == glyph(*pixel),
{
    let sum: u32 = pixel.0[0] as u32 + pixel.0[1] as u32 + pixel.0[2] as u32;
    let avg: u32 = sum / 3;
    let index: u32 = avg.checked_rem_euclid(RAMP_LEN).unwrap();
    proof {
        lemma_ramp_text();
    }
    ASCII_CHARS.get_char(index as usize)
}

} // verus!
