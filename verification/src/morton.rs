//! Morton (Z-order) spatial-index codec.
//!
//! `morton_encode3` bit-dilates three coordinates of at most 21 bits each and
//! interleaves them into one `u64` (X, Y, Z bit triplets, X in the lowest
//! slot); `morton_decode3` is its exact inverse.  `pack` combines the Morton
//! code of the high coordinate bits with the low two bits of each coordinate
//! in fixed slots, giving one integer that identifies a coarse cell together
//! with a fine sub-cell offset; `unpack` is its exact inverse.

use vstd::prelude::*;

verus! {

/// Bit position where the Morton code of the coarse cell starts in a packed index.
pub const PACK_HEADER: u64 = 12;

/// Bit position where the fine sub-cell offsets start in a packed index.
pub const PACK_ALIGN: u64 = 6;

/// Low 21 bits of `w`, dilated: bit `i` of the input moves to bit `3*i`.
pub open spec fn spread_spec(w: u64) -> u64 {
    let a = w & 0x001fffff;
    let b = (a | (a << 32)) & 0x001f00000000ffff;
    let c = (b | (b << 16)) & 0x001f0000ff0000ff;
    let d = (c | (c << 8)) & 0x100f00f00f00f00f;
    let e = (d | (d << 4)) & 0x10c30c30c30c30c3;
    (e | (e << 2)) & 0x1249249249249249
}

/// Inverse of `spread_spec`: gathers every third bit back into the low 21 bits.
pub open spec fn compact_spec(w: u64) -> u32 {
    let a = w & 0x1249249249249249;
    let b = (a ^ (a >> 2)) & 0x30c30c30c30c30c3;
    let c = (b ^ (b >> 4)) & 0xf00f00f00f00f00f;
    let d = (c ^ (c >> 8)) & 0x00ff0000ff0000ff;
    let e = (d ^ (d >> 16)) & 0x00ff00000000ffff;
    (((e ^ (e >> 32)) & 0x001fffff) as u32)
}

/// The Morton code: the three dilated coordinates interleaved into X, Y, Z
/// bit triplets, X in the lowest slot of each triplet.
pub open spec fn encode3_spec(x: u32, y: u32, z: u32) -> u64 {
    spread_spec(x as u64) | (spread_spec(y as u64) << 1) | (spread_spec(z as u64) << 2)
}

/// The packed index: Morton code of the coordinates' high bits above the
/// header, and the low two bits of each coordinate in fixed slots.
pub open spec fn pack_spec(x: u32, y: u32, z: u32) -> u64 {
    (encode3_spec(x >> 2, y >> 2, z >> 2) << PACK_HEADER)
        | (((x as u64) & 0b0011) << PACK_ALIGN)
        | (((y as u64) & 0b0011) << (PACK_ALIGN + 2))
        | (((z as u64) & 0b0011) << (PACK_ALIGN + 4))
}

/// Compacting undoes dilation: `spread_spec` followed by `compact_spec`
/// recovers the low 21 bits of the input.
pub proof fn lemma_compact_of_spread(w: u64)
    ensures
        compact_spec(spread_spec(w)) == w & 0x001fffff,
{
    assert(compact_spec(spread_spec(w)) == w & 0x001fffff) by (bit_vector);
}

/// Each bit of a coordinate below 2^21 lands in its own slot of the Morton
/// code: bit `i` of `x` at position `3*i`, of `y` at `3*i + 1`, of `z` at
/// `3*i + 2`.
pub proof fn lemma_encode3_bits(x: u32, y: u32, z: u32, i: u64)
    requires
        i < 21,
    ensures
        (encode3_spec(x, y, z) >> (3 * i)) & 1 == ((x as u64) >> i) & 1,
        (encode3_spec(x, y, z) >> (3 * i + 1)) & 1 == ((y as u64) >> i) & 1,
        (encode3_spec(x, y, z) >> (3 * i + 2)) & 1 == ((z as u64) >> i) & 1,
{
    assert((encode3_spec(x, y, z) >> (3 * i)) & 1 == ((x as u64) >> i) & 1) by (bit_vector)
        requires
            i < 21,
    ;
    assert((encode3_spec(x, y, z) >> (3 * i + 1)) & 1 == ((y as u64) >> i) & 1) by (bit_vector)
        requires
            i < 21,
    ;
    assert((encode3_spec(x, y, z) >> (3 * i + 2)) & 1 == ((z as u64) >> i) & 1) by (bit_vector)
        requires
            i < 21,
    ;
}

/// Round trip of the Morton codec: decoding an encoded triple of coordinates
/// below 2^21 gives the coordinates back, so the codec is a bijection over
/// that range.
pub proof fn lemma_encode3_decode3(x: u32, y: u32, z: u32)
    requires
        x < 0x200000,
        y < 0x200000,
        z < 0x200000,
    ensures
        compact_spec(encode3_spec(x, y, z)) == x,
        compact_spec(encode3_spec(x, y, z) >> 1) == y,
        compact_spec(encode3_spec(x, y, z) >> 2) == z,
{
    assert(compact_spec(encode3_spec(x, y, z)) == x) by (bit_vector)
        requires
            x < 0x200000,
    ;
    assert(compact_spec(encode3_spec(x, y, z) >> 1) == y) by (bit_vector)
        requires
            y < 0x200000,
    ;
    assert(compact_spec(encode3_spec(x, y, z) >> 2) == z) by (bit_vector)
        requires
            z < 0x200000,
    ;
}

fn spread(w: u64) -> (r: u64)
    ensures
        r == spread_spec(w),
{
    let mut w: u64 = w & 0x001fffff;
    w = (w | w << 32) & 0x001f00000000ffff;
    w = (w | w << 16) & 0x001f0000ff0000ff;
    w = (w | w << 8) & 0x100f00f00f00f00f;
    w = (w | w << 4) & 0x10c30c30c30c30c3;
    w = (w | w << 2) & 0x1249249249249249;
    w
}

/// Interleave three coordinates of at most 21 bits into one Morton code.
pub fn morton_encode3(x: u32, y: u32, z: u32) -> (r: u64)
    ensures
        r == encode3_spec(x, y, z),
{
    spread(x as u64) | (spread(y as u64) << 1) | (spread(z as u64) << 2)
}

fn compact(w: u64) -> (r: u32)
    ensures
        r == compact_spec(w),
{
    let mut w: u64 = w & 0x1249249249249249;
    w = (w ^ (w >> 2)) & 0x30c30c30c30c30c3;
    w = (w ^ (w >> 4)) & 0xf00f00f00f00f00f;
    w = (w ^ (w >> 8)) & 0x00ff0000ff0000ff;
    w = (w ^ (w >> 16)) & 0x00ff00000000ffff;
    w = (w ^ (w >> 32)) & 0x00000000001fffff;
    w as u32
}

/// Split a Morton code back into its three coordinates; the exact inverse of
/// `morton_encode3` on coordinates below 2^21.
pub fn morton_decode3(code: u64) -> (r: [u32; 3])
    ensures
        r[0] == compact_spec(code),
        r[1] == compact_spec(code >> 1),
        r[2] == compact_spec(code >> 2),
{
    [compact(code), compact(code >> 1), compact(code >> 2)]
}

/// Pack three coordinates into one index: the Morton code of the high bits
/// above the header, the low two bits of each coordinate in fixed slots.
pub fn pack(x: u32, y: u32, z: u32) -> (r: u64)
    ensures
        r == pack_spec(x, y, z),
{
    let mut res: u64 = morton_encode3(x >> 2, y >> 2, z >> 2);

    res = res << PACK_HEADER;
    res = res | ((x as u64 & 0b0011) << PACK_ALIGN);
    res = res | ((y as u64 & 0b0011) << (PACK_ALIGN + 2));
    res | ((z as u64 & 0b0011) << (PACK_ALIGN + 4))
}

/// The coordinates a packed index stands for: high bits decoded from the
/// Morton part, low two bits taken from their fixed slots.
pub open spec fn unpack_spec(xyz: u64) -> (u32, u32, u32) {
    (
        ((compact_spec(xyz >> PACK_HEADER) << 2) | (((xyz >> PACK_ALIGN) & 0b0011) as u32)),
        ((compact_spec(xyz >> PACK_HEADER >> 1) << 2) | (((xyz >> (PACK_ALIGN + 2)) & 0b0011)
            as u32)),
        ((compact_spec(xyz >> PACK_HEADER >> 2) << 2) | (((xyz >> (PACK_ALIGN + 4)) & 0b0011)
            as u32)),
    )
}

/// Recover the three coordinates from a packed index; the exact inverse of
/// `pack` on coordinates below 2^19.
pub fn unpack(xyz: u64) -> (r: [u32; 3])
    ensures
        r[0] == unpack_spec(xyz).0,
        r[1] == unpack_spec(xyz).1,
        r[2] == unpack_spec(xyz).2,
{
    let high = morton_decode3(xyz >> PACK_HEADER);

    [
        (high[0] << 2) | (((xyz >> PACK_ALIGN) & 0b0011) as u32),
        (high[1] << 2) | (((xyz >> (PACK_ALIGN + 2)) & 0b0011) as u32),
        (high[2] << 2) | (((xyz >> (PACK_ALIGN + 4)) & 0b0011) as u32),
    ]
}

/// Round trip of the packed codec: unpacking a packed triple of coordinates
/// below 2^19 gives the coordinates back.  Above that range the Morton code
/// of the high bits no longer fits above the header, so 2^19 is exactly the
/// supported coordinate range.
pub proof fn lemma_pack_unpack(x: u32, y: u32, z: u32)
    requires
        x < 0x80000,
        y < 0x80000,
        z < 0x80000,
    ensures
        unpack_spec(pack_spec(x, y, z)).0 == x,
        unpack_spec(pack_spec(x, y, z)).1 == y,
        unpack_spec(pack_spec(x, y, z)).2 == z,
{
    let e = encode3_spec(x >> 2, y >> 2, z >> 2);
    assert((x >> 2) < 0x200000 && (y >> 2) < 0x200000 && (z >> 2) < 0x200000) by (bit_vector)
        requires
            x < 0x80000,
            y < 0x80000,
            z < 0x80000,
    ;
    lemma_encode3_decode3(x >> 2, y >> 2, z >> 2);
    assert(e < 0x10000000000000) by (bit_vector)
        requires
            e == encode3_spec(x >> 2, y >> 2, z >> 2),
            x < 0x80000,
            y < 0x80000,
            z < 0x80000,
    ;
    assert(pack_spec(x, y, z) >> PACK_HEADER == e) by (bit_vector)
        requires
            e == encode3_spec(x >> 2, y >> 2, z >> 2),
            e < 0x10000000000000,
    ;
    assert((pack_spec(x, y, z) >> PACK_ALIGN) & 0b0011 == (x as u64) & 0b0011) by (bit_vector);
    assert((pack_spec(x, y, z) >> (PACK_ALIGN + 2)) & 0b0011 == (y as u64) & 0b0011)
        by (bit_vector);
    assert((pack_spec(x, y, z) >> (PACK_ALIGN + 4)) & 0b0011 == (z as u64) & 0b0011)
        by (bit_vector);
    assert(((x >> 2) << 2) | (((x as u64) & 0b0011) as u32) == x) by (bit_vector);
    assert(((y >> 2) << 2) | (((y as u64) & 0b0011) as u32) == y) by (bit_vector);
    assert(((z >> 2) << 2) | (((z as u64) & 0b0011) as u32) == z) by (bit_vector);
}

} // verus!
