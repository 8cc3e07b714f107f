use vstd::prelude::*;

verus! {

/// The packed value of an opaque color with the given channels: alpha in the
/// top byte, then red, green and blue.
pub open spec fn packed(r: u8, g: u8, b: u8) -> u32 {
    (0xff000000u32 | ((r as u32) << 16u32) | ((g as u32) << 8u32) | (b as u32)) as u32
}

/// The packed value is the weighted sum of its bytes.
proof fn lemma_packed_sum(r: u8, g: u8, b: u8)
    ensures
        packed(r, g, b) as int == 0xff000000 + (r as int) * 0x10000 + (g as int) * 0x100 + b as int,
{
    let (r32, g32, b32) = (r as u32, g as u32, b as u32);
    assert(0xff000000u32 | (r32 << 16u32) | (g32 << 8u32) | b32
        == 0xff000000u32 + r32 * 0x10000u32 + g32 * 0x100u32 + b32) by (bit_vector)
        requires r32 < 256 && g32 < 256 && b32 < 256;
}

/// Packs three 8-bit channels into an opaque ARGB value.
pub fn argb_from_rgb(r: u8, g: u8, b: u8) -> (argb: u32)
    ensures
        argb == packed(r, g, b),
        argb as int == 0xff000000 + (r as int) * 0x10000 + (g as int) * 0x100 + b as int,
{
    let argb: u32 = 0xff000000u32 | (r as u32) << 16 | (g as u32) << 8 | (b as u32);
    proof {
        lemma_packed_sum(r, g, b);
    }
    argb
}

/// The alpha channel of a packed ARGB value.
pub fn alpha_from_argb(argb: u32) -> (a: u8)
    ensures
        a as int == argb as int / 0x1000000,
{
    let a: u32 = argb >> 24;
    assert(a == argb / 0x1000000u32 && a < 256) by (bit_vector)
        requires a == argb >> 24u32;
    a as u8
}

/// The red channel of a packed ARGB value.
pub fn red_from_argb(argb: u32) -> (r: u8)
    ensures
        r as int == (argb as int / 0x10000) % 0x100,
{
    let r: u32 = (argb >> 16) & 0xff;
    assert(r == (argb / 0x10000u32) % 0x100u32 && r < 256) by (bit_vector)
        requires r == (argb >> 16u32) & 0xffu32;
    r as u8
}

/// The green channel of a packed ARGB value.
pub fn green_from_argb(argb: u32) -> (g: u8)
    ensures
        g as int == (argb as int / 0x100) % 0x100,
{
    let g: u32 = (argb >> 8) & 0xff;
    assert(g == (argb / 0x100u32) % 0x100u32 && g < 256) by (bit_vector)
        requires g == (argb >> 8u32) & 0xffu32;
    g as u8
}

/// The blue channel of a packed ARGB value.
pub fn blue_from_argb(argb: u32) -> (b: u8)
    ensures
        b as int == argb as int % 0x100,
{
    let b: u32 = argb & 0xff;
    assert(b == argb % 0x100u32 && b < 256) by (bit_vector)
        requires b == argb & 0xffu32;
    b as u8
}

/// Packing three channels and reading them back gives the same channels, with
/// an opaque alpha.
pub proof fn lemma_unpack_packed(r: u8, g: u8, b: u8)
    ensures
        (packed(r, g, b) as int / 0x1000000) == 0xff,
        (packed(r, g, b) as int / 0x10000) % 0x100 == r as int,
        (packed(r, g, b) as int / 0x100) % 0x100 == g as int,
        packed(r, g, b) as int % 0x100 == b as int,
{
    lemma_packed_sum(r, g, b);
    let p: int = packed(r, g, b) as int;
    assert(p / 0x1000000 == 0xff) by (nonlinear_arith)
        requires p == 0xff * 0x1000000 + (r as int) * 0x10000 + (g as int) * 0x100 + b as int,
            0 <= r < 256, 0 <= g < 256, 0 <= b < 256;
    assert((p / 0x10000) % 0x100 == r as int) by (nonlinear_arith)
        requires p == 0xff * 0x1000000 + (r as int) * 0x10000 + (g as int) * 0x100 + b as int,
            0 <= r < 256, 0 <= g < 256, 0 <= b < 256;
    assert((p / 0x100) % 0x100 == g as int) by (nonlinear_arith)
        requires p == 0xff * 0x1000000 + (r as int) * 0x10000 + (g as int) * 0x100 + b as int,
            0 <= r < 256, 0 <= g < 256, 0 <= b < 256;
    assert(p % 0x100 == b as int) by (nonlinear_arith)
        requires p == 0xff * 0x1000000 + (r as int) * 0x10000 + (g as int) * 0x100 + b as int,
            0 <= r < 256, 0 <= g < 256, 0 <= b < 256;
}

} // verus!
