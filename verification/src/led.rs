//! The status LED: which colour shows which phase, and how a colour goes out
//! to a WS2812 pixel.
use vstd::prelude::*;
use crate::profile::Phase;
use crate::sensor::bits_value;

verus! {

/// The (red, green, blue) colour that shows `phase`.
pub open spec fn phase_color_spec(phase: Phase) -> (u8, u8, u8) {
    match phase {
        Phase::Idle => (0, 0, 25),
        Phase::Preheat => (25, 12, 0),
        Phase::Soak => (25, 25, 0),
        Phase::Reflow => (25, 0, 0),
        Phase::Cooling => (0, 12, 25),
        Phase::Done => (0, 25, 0),
    }
}

/// The (red, green, blue) colour that shows `phase`: blue idle, orange
/// preheat, yellow soak, red reflow, cyan cooling, green done.
pub fn phase_color(phase: Phase) -> (c: (u8, u8, u8))
    ensures
        c == phase_color_spec(phase),
{
    match phase {
        Phase::Idle => (0, 0, 25),
        Phase::Preheat => (25, 12, 0),
        Phase::Soak => (25, 25, 0),
        Phase::Reflow => (25, 0, 0),
        Phase::Cooling => (0, 12, 25),
        Phase::Done => (0, 25, 0),
    }
}

/// The 24-bit word that a WS2812 takes: green, red, blue, a byte each.
pub open spec fn grb_word(r: u8, g: u8, b: u8) -> int {
    g * 0x1_0000 + r * 0x100 + b
}

/// The word for a WS2812 (green, red, blue).
pub fn ws2812_word(r: u8, g: u8, b: u8) -> (w: u32)
    ensures
        w == grb_word(r, g, b),
{
    let (g32, r32, b32) = (g as u32, r as u32, b as u32);
    assert((g32 << 16u32) | (r32 << 8u32) | b32 == g32 * 0x1_0000 + r32 * 0x100 + b32) by (bit_vector)
        requires
            g32 < 0x100,
            r32 < 0x100,
            b32 < 0x100,
    ;
    (g32 << 16) | (r32 << 8) | b32
}

/// Bit `i` (from the least significant) of `w`.
pub open spec fn bit_of(w: u32, i: u32) -> bool {
    (w >> i) & 1 == 1
}

proof fn lemma_next_prefix(w: u32, s: u32)
    requires
        s < 24,
    ensures
        (w & 0xff_ffff) >> s == 2 * ((w & 0xff_ffff) >> (s + 1)) + if bit_of(w, s) {
            1u32
        } else {
            0u32
        },
{
    assert((w & 0xff_ffffu32) >> s == 2 * ((w & 0xff_ffffu32) >> (s + 1)) + ((w >> s) & 1)) by (bit_vector)
        requires
            s < 24,
    ;
    assert((w >> s) & 1 == 1 || (w >> s) & 1 == 0) by (bit_vector);
}

/// The levels to send for the low 24 bits of `color`, most significant first:
/// one pulse pair per bit, long-high for a one, short-high for a zero.
pub fn ws2812_levels(color: u32) -> (levels: Vec<bool>)
    ensures
        levels@.len() == 24,
        forall|i: int| 0 <= i < 24 ==> levels@[i] == bit_of(color, (23 - i) as u32),
        bits_value(levels@) == color % 0x100_0000,
{
    let mut levels: Vec<bool> = Vec::new();
    let mut k: u32 = 0;
    assert((color & 0xff_ffffu32) >> 24u32 == 0) by (bit_vector);
    while k < 24
        invariant
            k <= 24,
            levels@.len() == k,
            forall|i: int| 0 <= i < k ==> levels@[i] == bit_of(color, (23 - i) as u32),
            bits_value(levels@) == (color & 0xff_ffff) >> (24 - k) as u32,
        decreases 24 - k,
    {
        let bit = (color >> (23 - k)) & 1 != 0;
        proof {
            lemma_next_prefix(color, (23 - k) as u32);
            assert((color >> ((23 - k) as u32)) & 1 != 0 <==> (color >> ((23 - k) as u32)) & 1 == 1) by (bit_vector);
        }
        let ghost before = levels@;
        levels.push(bit);
        proof {
            assert(levels@.drop_last() =~= before);
        }
        k = k + 1;
    }
    assert((color & 0xff_ffffu32) >> 0u32 == color % 0x100_0000u32) by (bit_vector);
    levels
}

} // verus!
