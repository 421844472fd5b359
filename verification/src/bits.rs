//! Bit-level facts about bytes and words that the rest of the crate
//! relies on. Each lemma is proved once by the bit-vector solver.

use vstd::prelude::*;

verus! {

/// The 16-bit word made of a high and a low byte.
pub open spec fn word(hi: u8, lo: u8) -> u16 {
    (hi as int * 256 + lo as int) as u16
}

/// The high byte of a word.
pub open spec fn hi_byte(w: u16) -> u8 {
    (w as int / 256) as u8
}

/// The low byte of a word.
pub open spec fn lo_byte(w: u16) -> u8 {
    (w as int % 256) as u8
}

/// Splitting a word into bytes with shifts and casts, and joining them back.
pub proof fn lemma_word_bits()
    ensures
        forall|hi: u8, lo: u8|
            #![trigger word(hi, lo)]
            ((hi as u16) << 8u16) | (lo as u16) == word(hi, lo),
        forall|w: u16| #![trigger hi_byte(w)] ((w >> 8u16) as u8) == hi_byte(w),
        forall|w: u16| #![trigger lo_byte(w)] (w as u8) == lo_byte(w),
{
    assert forall|hi: u8, lo: u8| ((hi as u16) << 8u16) | (lo as u16) == word(hi, lo) by {
        assert(((hi as u16) << 8u16) | (lo as u16) == (hi as u16) * 256 + (lo as u16))
            by (bit_vector);
    }
    assert forall|w: u16| ((w >> 8u16) as u8) == hi_byte(w) by {
        assert(((w >> 8u16) as u8) == w / 256) by (bit_vector);
    }
    assert forall|w: u16| (w as u8) == lo_byte(w) by {
        assert((w as u8) == w % 256) by (bit_vector);
    }
}

/// Joining the bytes of a word gives the word back, and the bytes of a
/// joined word are the bytes it was made of.
pub proof fn lemma_word_roundtrip(w: u16, hi: u8, lo: u8)
    ensures
        word(hi_byte(w), lo_byte(w)) == w,
        hi_byte(word(hi, lo)) == hi,
        lo_byte(word(hi, lo)) == lo,
{
}

/// Masking keeps a value within the mask.
pub proof fn lemma_mask_bounds()
    by (bit_vector)
    ensures
        forall|x: u8| #[trigger] (x & 0x0Fu8) <= 0x0Fu8,
        forall|x: u8| #[trigger] (x & 0x07u8) <= 0x07u8,
        forall|x: u8| #[trigger] (x & 0x03u8) <= 0x03u8,
        forall|x: u8| #[trigger] (x & 0x1Fu8) <= 0x1Fu8,
        forall|x: u8| #[trigger] (x & 0x3Fu8) <= 0x3Fu8,
        forall|x: u8| #[trigger] (x & 0x7Fu8) <= 0x7Fu8,
        forall|x: u16| #[trigger] (x & 0x0FFFu16) <= 0x0FFFu16,
        forall|x: u16| #[trigger] (x & 0xFFu16) <= 0xFFu16,
        forall|x: u16| #[trigger] (x & 0x0Fu16) <= 0x0Fu16,
        forall|x: u16| #[trigger] (x & 0x3Fu16) <= 0x3Fu16,
        forall|x: u16| #[trigger] (x & 0x07u16) <= 0x07u16,
        forall|x: u8| #[trigger] (x >> 4u8) <= 0x0Fu8,
        forall|x: u8| #[trigger] (x >> 6u8) <= 0x03u8,
        forall|x: u8| #[trigger] (x >> 1u8) <= 0x7Fu8,
        forall|x: u8| #[trigger] (x & 1u8) <= 1u8,
        forall|x: u8| #[trigger] (x & 7u8) == x % 8,
        forall|x: u8| x < 32 ==> #[trigger] (x >> 1u8) < 16,
        forall|x: u8| #[trigger] (x & 0x1Fu8) == x % 32,
        forall|f: u16, v: u16| #[trigger] ((f & 0x00FFu16) | ((v & 0x07u16) << 8u16)) <= 0x07FFu16,
        forall|f: u16, v: u16| v <= 0xFF ==> #[trigger] ((f & 0x0700u16) | v) <= 0x07FFu16,
        forall|a: u8, b: u8| a <= 1 && b <= 1 ==> #[trigger] ((a << 1u8) | b) <= 3u8,
{
}

} // verus!
