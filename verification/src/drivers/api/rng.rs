//! Random numbers.
//!
//! A generator delivers bytes; the integers that the firmware asks for are
//! put together from them, least significant byte first.

use vstd::prelude::*;

verus! {

/// The number that two bytes spell, least significant byte first.
pub open spec fn le_u16(bytes: Seq<u8>) -> int
    recommends
        bytes.len() == 2,
{
    bytes[0] + 0x100 * bytes[1]
}

/// The number that four bytes spell, least significant byte first.
pub open spec fn le_u32(bytes: Seq<u8>) -> int
    recommends
        bytes.len() == 4,
{
    bytes[0] + 0x100 * bytes[1] + 0x1_0000 * bytes[2] + 0x100_0000 * bytes[3]
}

/// The number that eight bytes spell, least significant byte first.
pub open spec fn le_u64(bytes: Seq<u8>) -> int
    recommends
        bytes.len() == 8,
{
    le_u32(bytes.subrange(0, 4)) + 0x1_0000_0000 * le_u32(bytes.subrange(4, 8))
}

/// Puts a 16-bit number together from its bytes.
pub fn u16_from_le_bytes(buf: &[u8; 2]) -> (value: u16)
    ensures
        value == le_u16(buf@),
{
    let b0 = buf[0];
    let b1 = buf[1];
    assert(b0 as u16 | (b1 as u16) << 8 == b0 + 0x100 * b1) by (bit_vector);
    b0 as u16 | (b1 as u16) << 8
}

/// Puts a 32-bit number together from its bytes.
pub fn u32_from_le_bytes(buf: &[u8; 4]) -> (value: u32)
    ensures
        value == le_u32(buf@),
{
    let b0 = buf[0];
    let b1 = buf[1];
    let b2 = buf[2];
    let b3 = buf[3];
    assert(b0 as u32 | (b1 as u32) << 8 | (b2 as u32) << 16 | (b3 as u32) << 24 == b0 + 0x100 * b1
        + 0x1_0000 * b2 + 0x100_0000 * b3) by (bit_vector);
    b0 as u32 | (b1 as u32) << 8 | (b2 as u32) << 16 | (b3 as u32) << 24
}

/// Puts a 64-bit number together from its bytes.
pub fn u64_from_le_bytes(buf: &[u8; 8]) -> (value: u64)
    ensures
        value == le_u64(buf@),
{
    let b0 = buf[0];
    let b1 = buf[1];
    let b2 = buf[2];
    let b3 = buf[3];
    let b4 = buf[4];
    let b5 = buf[5];
    let b6 = buf[6];
    let b7 = buf[7];
    let low = b0 as u64 | (b1 as u64) << 8 | (b2 as u64) << 16 | (b3 as u64) << 24;
    let high = (b4 as u64) << 32 | (b5 as u64) << 40 | (b6 as u64) << 48 | (b7 as u64) << 56;
    assert(low == b0 + 0x100 * b1 + 0x1_0000 * b2 + 0x100_0000 * b3) by (bit_vector)
        requires
            low == b0 as u64 | (b1 as u64) << 8 | (b2 as u64) << 16 | (b3 as u64) << 24,
    ;
    assert(high == 0x1_0000_0000 * (b4 + 0x100 * b5 + 0x1_0000 * b6 + 0x100_0000 * b7))
        by (bit_vector)
        requires
            high == (b4 as u64) << 32 | (b5 as u64) << 40 | (b6 as u64) << 48 | (b7 as u64) << 56,
    ;
    assert(low | high == low + high) by (bit_vector)
        requires
            low == b0 as u64 | (b1 as u64) << 8 | (b2 as u64) << 16 | (b3 as u64) << 24,
            high == (b4 as u64) << 32 | (b5 as u64) << 40 | (b6 as u64) << 48 | (b7 as u64) << 56,
    ;
    assert(buf@.subrange(0, 4) =~= seq![b0, b1, b2, b3]);
    assert(buf@.subrange(4, 8) =~= seq![b4, b5, b6, b7]);
    low | high
}

/// A source of random bytes, with the integers made from them: each is the
/// number that the bytes spell which one call of `random` leaves in a buffer
/// of the integer's size.
pub trait RngDriver: Sized {
    /// Fills `buf` with random bytes.
    fn random(&mut self, buf: &mut [u8]);

    /// Draws one byte.
    fn random_u8(&mut self) -> (value: u8)
        ensures
            exists|this: &mut Self, buf: &mut [u8]|
                *this == *old(self) && *final(this) == *final(self) && buf@.len() == 1
                    && call_ensures(Self::random, (this, buf), ()) && value == final(buf)@[0],
    {
        let mut buf = [0u8; 1];
        self.random(&mut buf);
        buf[0]
    }

    /// Draws two bytes and reads them as a number.
    fn random_u16(&mut self) -> (value: u16)
        ensures
            exists|this: &mut Self, buf: &mut [u8]|
                *this == *old(self) && *final(this) == *final(self) && buf@.len() == 2
                    && call_ensures(Self::random, (this, buf), ()) && value == le_u16(
                    final(buf)@,
                ),
    {
        let mut buf = [0u8; 2];
        self.random(&mut buf);
        u16_from_le_bytes(&buf)
    }

    /// Draws four bytes and reads them as a number.
    fn random_u32(&mut self) -> (value: u32)
        ensures
            exists|this: &mut Self, buf: &mut [u8]|
                *this == *old(self) && *final(this) == *final(self) && buf@.len() == 4
                    && call_ensures(Self::random, (this, buf), ()) && value == le_u32(
                    final(buf)@,
                ),
    {
        let mut buf = [0u8; 4];
        self.random(&mut buf);
        u32_from_le_bytes(&buf)
    }

    /// Draws eight bytes and reads them as a number.
    fn random_u64(&mut self) -> (value: u64)
        ensures
            exists|this: &mut Self, buf: &mut [u8]|
                *this == *old(self) && *final(this) == *final(self) && buf@.len() == 8
                    && call_ensures(Self::random, (this, buf), ()) && value == le_u64(
                    final(buf)@,
                ),
    {
        let mut buf = [0u8; 8];
        self.random(&mut buf);
        u64_from_le_bytes(&buf)
    }
}

} // verus!
