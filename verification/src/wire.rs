//! Integers on the wire: how many-byte numbers are laid out, least or most
//! significant byte first.

use vstd::prelude::*;

verus! {

/// The number whose little-endian form is the two bytes.
pub open spec fn spec_u16_le(b0: u8, b1: u8) -> u16 {
    (b0 + 0x100 * b1) as u16
}

/// The number whose little-endian form is the four bytes.
pub open spec fn spec_u32_le(b0: u8, b1: u8, b2: u8, b3: u8) -> u32 {
    (b0 + 0x100 * b1 + 0x1_0000 * b2 + 0x100_0000 * b3) as u32
}

/// The number whose big-endian form is the four bytes.
pub open spec fn spec_u32_be(b0: u8, b1: u8, b2: u8, b3: u8) -> u32 {
    spec_u32_le(b3, b2, b1, b0)
}

/// The little-endian form of a number of 16 bits.
pub open spec fn spec_u16_to_le(x: u16) -> Seq<u8> {
    seq![(x % 0x100) as u8, (x / 0x100) as u8]
}

/// The little-endian form of a number of 32 bits.
pub open spec fn spec_u32_to_le(x: u32) -> Seq<u8> {
    seq![
        (x % 0x100) as u8,
        (x / 0x100 % 0x100) as u8,
        (x / 0x1_0000 % 0x100) as u8,
        (x / 0x100_0000) as u8,
    ]
}

/// The big-endian form of a number of 32 bits.
pub open spec fn spec_u32_to_be(x: u32) -> Seq<u8> {
    seq![
        (x / 0x100_0000) as u8,
        (x / 0x1_0000 % 0x100) as u8,
        (x / 0x100 % 0x100) as u8,
        (x % 0x100) as u8,
    ]
}

/// Reads two bytes as a number, least significant byte first.
pub fn u16_from_le(b0: u8, b1: u8) -> (x: u16)
    ensures
        x == spec_u16_le(b0, b1),
{
    b0 as u16 + 0x100 * (b1 as u16)
}

/// Reads four bytes as a number, least significant byte first.
pub fn u32_from_le(b0: u8, b1: u8, b2: u8, b3: u8) -> (x: u32)
    ensures
        x == spec_u32_le(b0, b1, b2, b3),
{
    b0 as u32 + 0x100 * (b1 as u32) + 0x1_0000 * (b2 as u32) + 0x100_0000 * (b3 as u32)
}

/// Reads four bytes as a number, most significant byte first.
pub fn u32_from_be(b0: u8, b1: u8, b2: u8, b3: u8) -> (x: u32)
    ensures
        x == spec_u32_be(b0, b1, b2, b3),
{
    u32_from_le(b3, b2, b1, b0)
}

/// Lays a number out in two bytes, least significant byte first.
pub fn u16_to_le(x: u16) -> (b: [u8; 2])
    ensures
        b@ == spec_u16_to_le(x),
{
    let b: [u8; 2] = [(x % 0x100) as u8, (x / 0x100) as u8];
    assert(b@ =~= spec_u16_to_le(x));
    b
}

/// Lays a number out in four bytes, least significant byte first.
pub fn u32_to_le(x: u32) -> (b: [u8; 4])
    ensures
        b@ == spec_u32_to_le(x),
{
    let b: [u8; 4] = [
        (x % 0x100) as u8,
        (x / 0x100 % 0x100) as u8,
        (x / 0x1_0000 % 0x100) as u8,
        (x / 0x100_0000) as u8,
    ];
    assert(b@ =~= spec_u32_to_le(x));
    b
}

/// Lays a number out in four bytes, most significant byte first.
pub fn u32_to_be(x: u32) -> (b: [u8; 4])
    ensures
        b@ == spec_u32_to_be(x),
{
    let b: [u8; 4] = [
        (x / 0x100_0000) as u8,
        (x / 0x1_0000 % 0x100) as u8,
        (x / 0x100 % 0x100) as u8,
        (x % 0x100) as u8,
    ];
    assert(b@ =~= spec_u32_to_be(x));
    b
}

/// Reading back the little-endian form of a number gives the number.
pub proof fn lemma_u16_le_round_trip(x: u16)
    ensures
        spec_u16_le(spec_u16_to_le(x)[0], spec_u16_to_le(x)[1]) == x,
{
}

/// Reading back the little-endian form of a number gives the number.
pub proof fn lemma_u32_le_round_trip(x: u32)
    ensures
        spec_u32_le(
            spec_u32_to_le(x)[0],
            spec_u32_to_le(x)[1],
            spec_u32_to_le(x)[2],
            spec_u32_to_le(x)[3],
        ) == x,
{
}

/// Reading back the big-endian form of a number gives the number.
pub proof fn lemma_u32_be_round_trip(x: u32)
    ensures
        spec_u32_be(
            spec_u32_to_be(x)[0],
            spec_u32_to_be(x)[1],
            spec_u32_to_be(x)[2],
            spec_u32_to_be(x)[3],
        ) == x,
{
}

/// The little-endian form of the number that four bytes stand for is the
/// four bytes.
pub proof fn lemma_u32_le_bytes_round_trip(b0: u8, b1: u8, b2: u8, b3: u8)
    ensures
        spec_u32_to_le(spec_u32_le(b0, b1, b2, b3)) == seq![b0, b1, b2, b3],
{
    let x = spec_u32_le(b0, b1, b2, b3);
    assert(x == b0 + 0x100 * b1 + 0x1_0000 * b2 + 0x100_0000 * b3);
    assert(x % 0x100 == b0 && x / 0x100 == b1 + 0x100 * b2 + 0x1_0000 * b3) by (nonlinear_arith)
        requires
            x == b0 + 0x100 * (b1 + 0x100 * b2 + 0x1_0000 * b3),
            0 <= b0 < 0x100,
    ;
    let x1 = x / 0x100;
    assert(x1 % 0x100 == b1 && x1 / 0x100 == b2 + 0x100 * b3) by (nonlinear_arith)
        requires
            x1 == b1 + 0x100 * (b2 + 0x100 * b3),
            0 <= b1 < 0x100,
    ;
    let x2 = x1 / 0x100;
    assert(x2 % 0x100 == b2 && x2 / 0x100 == b3) by (nonlinear_arith)
        requires
            x2 == b2 + 0x100 * b3,
            0 <= b2 < 0x100,
    ;
    assert(x / 0x1_0000 == x2) by (nonlinear_arith)
        requires
            x1 == x / 0x100,
            x2 == x1 / 0x100,
            x >= 0,
    ;
    assert(x / 0x100_0000 == b3) by (nonlinear_arith)
        requires
            x2 == x / 0x1_0000,
            x2 / 0x100 == b3,
            x >= 0,
    ;
    assert(spec_u32_to_le(x) =~= seq![b0, b1, b2, b3]);
}

/// The little-endian form of the number that two bytes stand for is the
/// two bytes.
pub proof fn lemma_u16_le_bytes_round_trip(b0: u8, b1: u8)
    ensures
        spec_u16_to_le(spec_u16_le(b0, b1)) == seq![b0, b1],
{
    assert(spec_u16_to_le(spec_u16_le(b0, b1)) =~= seq![b0, b1]);
}

} // verus!
