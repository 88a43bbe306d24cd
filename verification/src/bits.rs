//! Bit-level views of 32-bit register words shared by the driver modules.

use vstd::prelude::*;

verus! {

/// Bit `i` of `r` is set.
pub open spec fn bit(r: u32, i: u32) -> bool {
    (r >> i) & 1u32 == 1u32
}

/// The field of `r` that starts at bit `lo` and is selected by `mask`
/// (a mask of the field's width, already shifted down to bit 0).
pub open spec fn field(r: u32, lo: u32, mask: u32) -> u32 {
    (r >> lo) & mask
}

/// Reads bit `i` of `r`.
pub fn read_bit(r: u32, i: u32) -> (b: bool)
    requires
        i < 32,
    ensures
        b == bit(r, i),
{
    (r >> i) & 1 == 1
}

/// The value 1 for `true` and 0 for `false`, as a register word.
pub open spec fn flag(b: bool) -> u32 {
    if b {
        1u32
    } else {
        0u32
    }
}

pub fn flag_word(b: bool) -> (w: u32)
    ensures
        w == flag(b),
{
    if b {
        1
    } else {
        0
    }
}


/// The 32-bit word of four bytes, most significant first.
pub open spec fn be_u32(b: Seq<u8>) -> u32 {
    ((b[0] as u32) << 24) | ((b[1] as u32) << 16) | ((b[2] as u32) << 8) | (b[3] as u32)
}

/// Splitting a word into bytes, most significant first, and joining them
/// again gives the word back.
pub proof fn lemma_be_round_trip(w: u32)
    ensures
        ({
            let b = seq![
                ((w >> 24) & 0xff) as u8,
                ((w >> 16) & 0xff) as u8,
                ((w >> 8) & 0xff) as u8,
                (w & 0xff) as u8,
            ];
            be_u32(b) == w
        }),
{
    let b0 = ((w >> 24) & 0xff) as u8;
    let b1 = ((w >> 16) & 0xff) as u8;
    let b2 = ((w >> 8) & 0xff) as u8;
    let b3 = (w & 0xff) as u8;
    assert((((b0 as u32) << 24) | ((b1 as u32) << 16) | ((b2 as u32) << 8) | (b3 as u32)) == w)
        by (bit_vector)
        requires
            b0 == ((w >> 24) & 0xff) as u8,
            b1 == ((w >> 16) & 0xff) as u8,
            b2 == ((w >> 8) & 0xff) as u8,
            b3 == (w & 0xff) as u8,
    ;
    let b = seq![b0, b1, b2, b3];
    assert(b[0] == b0 && b[1] == b1 && b[2] == b2 && b[3] == b3);
}

/// An address byte with the write flag set keeps the address in its low
/// seven bits.
pub proof fn lemma_write_flag(a: u8)
    ensures
        (a | 0x80) & 0x80 == 0x80,
        (a | 0x80) & 0x7f == a & 0x7f,
{
    assert((a | 0x80) & 0x80 == 0x80 && (a | 0x80) & 0x7f == a & 0x7f) by (bit_vector);
}
} // verus!
