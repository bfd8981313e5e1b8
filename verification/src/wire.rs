//! Big-endian field encoding: the byte-level reads and writes every protocol
//! header uses.

use vstd::prelude::*;

verus! {

/// High byte of a 16-bit big-endian field.
pub open spec fn spec_hi(v: u16) -> u8 {
    (v / 256) as u8
}

/// Low byte of a 16-bit big-endian field.
pub open spec fn spec_lo(v: u16) -> u8 {
    (v % 256) as u8
}

/// The value of two bytes read as a 16-bit big-endian field.
pub open spec fn spec_be16(b0: u8, b1: u8) -> u16 {
    (b0 * 256 + b1) as u16
}

/// The four bytes of a 32-bit big-endian field, most significant first.
pub open spec fn spec_be32_byte(v: u32, i: int) -> u8 {
    if i == 0 {
        (v / 0x1000000) as u8
    } else if i == 1 {
        ((v / 0x10000) % 256) as u8
    } else if i == 2 {
        ((v / 256) % 256) as u8
    } else {
        (v % 256) as u8
    }
}

/// The value of four bytes read as a 32-bit big-endian field.
pub open spec fn spec_be32(b0: u8, b1: u8, b2: u8, b3: u8) -> u32 {
    (b0 * 0x1000000 + b1 * 0x10000 + b2 * 256 + b3) as u32
}

/// `b` with the 16-bit big-endian field at byte offset `at` set to `v`.
pub open spec fn spec_write16(b: Seq<u8>, at: int, v: u16) -> Seq<u8> {
    b.update(at, spec_hi(v)).update(at + 1, spec_lo(v))
}

/// `b` with the 32-bit big-endian field at byte offset `at` set to `v`.
pub open spec fn spec_write32(b: Seq<u8>, at: int, v: u32) -> Seq<u8> {
    b.update(at, spec_be32_byte(v, 0)).update(at + 1, spec_be32_byte(v, 1)).update(
        at + 2,
        spec_be32_byte(v, 2),
    ).update(at + 3, spec_be32_byte(v, 3))
}

/// Splitting a 16-bit value into bytes and reading them back is the identity.
pub proof fn lemma_be16_round(v: u16)
    ensures
        spec_be16(spec_hi(v), spec_lo(v)) == v,
{
}

/// Splitting a 32-bit value into bytes and reading them back is the identity.
pub proof fn lemma_be32_round(v: u32)
    ensures
        spec_be32(
            spec_be32_byte(v, 0),
            spec_be32_byte(v, 1),
            spec_be32_byte(v, 2),
            spec_be32_byte(v, 3),
        ) == v,
{
    assert(spec_be32(
        spec_be32_byte(v, 0),
        spec_be32_byte(v, 1),
        spec_be32_byte(v, 2),
        spec_be32_byte(v, 3),
    ) == v) by (nonlinear_arith);
}

/// Read the 16-bit big-endian field at byte offset `at`.
pub fn read_u16_be(b: &[u8], at: usize) -> (r: u16)
    requires
        at + 2 <= b@.len(),
    ensures
        r == spec_be16(b@[at as int], b@[at as int + 1]),
{
    let b0 = b[at];
    let b1 = b[at + 1];
    (b0 as u16) * 256 + (b1 as u16)
}

/// Read the 32-bit big-endian field at byte offset `at`.
pub fn read_u32_be(b: &[u8], at: usize) -> (r: u32)
    requires
        at + 4 <= b@.len(),
    ensures
        r == spec_be32(b@[at as int], b@[at as int + 1], b@[at as int + 2], b@[at as int + 3]),
{
    let b0 = b[at];
    let b1 = b[at + 1];
    let b2 = b[at + 2];
    let b3 = b[at + 3];
    (b0 as u32) * 0x1000000 + (b1 as u32) * 0x10000 + (b2 as u32) * 256 + (b3 as u32)
}

/// Write `v` as a 16-bit big-endian field at byte offset `at`.
pub fn write_u16_be(b: &mut [u8], at: usize, v: u16)
    requires
        at + 2 <= old(b)@.len(),
    ensures
        final(b)@ == old(b)@.update(at as int, spec_hi(v)).update(at as int + 1, spec_lo(v)),
{
    b[at] = (v / 256) as u8;
    b[at + 1] = (v % 256) as u8;
}

/// Write `v` as a 32-bit big-endian field at byte offset `at`.
pub fn write_u32_be(b: &mut [u8], at: usize, v: u32)
    requires
        at + 4 <= old(b)@.len(),
    ensures
        final(b)@ == old(b)@.update(at as int, spec_be32_byte(v, 0)).update(
            at as int + 1,
            spec_be32_byte(v, 1),
        ).update(at as int + 2, spec_be32_byte(v, 2)).update(at as int + 3, spec_be32_byte(v, 3)),
{
    b[at] = (v / 0x1000000) as u8;
    b[at + 1] = ((v / 0x10000) % 256) as u8;
    b[at + 2] = ((v / 256) % 256) as u8;
    b[at + 3] = (v % 256) as u8;
}

} // verus!
