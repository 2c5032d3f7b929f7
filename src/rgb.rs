//! Packing the three channels of a colour into one 24-bit integer, and back.

use vstd::prelude::*;

verus! {

/// The packed form of a colour: red in bits 16 to 23, green in bits 8 to 15,
/// blue in bits 0 to 7.
pub open spec fn packed(r: int, g: int, b: int) -> int {
    r * 0x10000 + g * 0x100 + b
}

/// The red channel of a packed colour: bits 16 to 23.
pub open spec fn red_of(c: int) -> int {
    (c / 0x10000) % 0x100
}

/// The green channel of a packed colour: bits 8 to 15.
pub open spec fn green_of(c: int) -> int {
    (c / 0x100) % 0x100
}

/// The blue channel of a packed colour: bits 0 to 7.
pub open spec fn blue_of(c: int) -> int {
    c % 0x100
}

/// Unpacking a packed colour gives back the three channels it was packed
/// from.
pub proof fn lemma_split_join(r: u8, g: u8, b: u8)
    ensures
        red_of(packed(r as int, g as int, b as int)) == r,
        green_of(packed(r as int, g as int, b as int)) == g,
        blue_of(packed(r as int, g as int, b as int)) == b,
{
    let c: u32 = ((r as u32) * 0x10000 + (g as u32) * 0x100 + (b as u32)) as u32;
    assert(c as int == packed(r as int, g as int, b as int));
    assert((c / 0x10000) % 0x100 == r) by (bit_vector)
        requires
            c == (r as u32) * 0x10000 + (g as u32) * 0x100 + (b as u32),
            r <= 0xff && g <= 0xff && b <= 0xff,
    ;
    assert((c / 0x100) % 0x100 == g) by (bit_vector)
        requires
            c == (r as u32) * 0x10000 + (g as u32) * 0x100 + (b as u32),
            r <= 0xff && g <= 0xff && b <= 0xff,
    ;
    assert(c % 0x100 == b) by (bit_vector)
        requires
            c == (r as u32) * 0x10000 + (g as u32) * 0x100 + (b as u32),
            r <= 0xff && g <= 0xff && b <= 0xff,
    ;
}

/// Packing the channels of a 24-bit colour gives back that colour.
pub proof fn lemma_join_split(c: i32)
    requires
        0 <= c <= 0xffffff,
    ensures
        packed(red_of(c as int), green_of(c as int), blue_of(c as int)) == c,
{
    let u: u32 = c as u32;
    assert(((u / 0x10000) % 0x100) * 0x10000 + ((u / 0x100) % 0x100) * 0x100 + u % 0x100 == u)
        by (bit_vector)
        requires
            u <= 0xffffff,
    ;
}

/// Join RGB into a color.
pub fn join_rgb(r: u8, g: u8, b: u8) -> (c: i32)
    ensures
        c == packed(r as int, g as int, b as int),
        0 <= c <= 0xffffff,
{
    assert(((r as i32) << 16 | (g as i32) << 8 | (b as i32)) == (r as i32) * 0x10000 + (g as i32)
        * 0x100 + (b as i32)) by (bit_vector);
    (r as i32) << 16 | (g as i32) << 8 | (b as i32)
}

/// Split color into RGB. Bits above 23 are ignored.
pub fn split_rgb(c: i32, r: &mut u8, g: &mut u8, b: &mut u8)
    ensures
        *final(r) == red_of(c as int),
        *final(g) == green_of(c as int),
        *final(b) == blue_of(c as int),
{
    assert(((c >> 16 & 0xff) as u8) as int == (c as int / 0x10000) % 0x100) by (bit_vector);
    assert(((c >> 8 & 0xff) as u8) as int == (c as int / 0x100) % 0x100) by (bit_vector);
    assert(((c & 0xff) as u8) as int == (c as int) % 0x100) by (bit_vector);
    *r = (c >> 16 & 0xff) as u8;
    *g = (c >> 8 & 0xff) as u8;
    *b = (c & 0xff) as u8;
}

} // verus!
