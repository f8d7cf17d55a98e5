use vstd::prelude::*;

verus! {

/// The 24-bit value `0xRRGGBB` whose bytes, from the most significant of the
/// three, are the channels `c0`, `c1` and `c2`.
pub open spec fn hex_value(c0: u8, c1: u8, c2: u8) -> int {
    c0 as int * 0x10000 + c1 as int * 0x100 + c2 as int
}

/// Packs three 8-bit channels into one `u32` as `(c0 << 16) | (c1 << 8) | c2`.
pub fn pack_hex(c0: u8, c1: u8, c2: u8) -> (r: u32)
    ensures
        r as int == hex_value(c0, c1, c2),
        r < 0x1000000,
        (r >> 16u32) as u8 == c0,
        (r >> 8u32) as u8 == c1,
        r as u8 == c2,
{
    let (a, b, c): (u32, u32, u32) = (c0 as u32, c1 as u32, c2 as u32);
    let r: u32 = (a << 16u32) | (b << 8u32) | c;
    assert(r == a * 0x10000 + b * 0x100 + c && r < 0x1000000 && (r >> 16u32) as u8 == a as u8
        && (r >> 8u32) as u8 == b as u8 && r as u8 == c as u8) by (bit_vector)
        requires
            a < 0x100,
            b < 0x100,
            c < 0x100,
            r == (a << 16u32) | (b << 8u32) | c,
    ;
    r
}

} // verus!
