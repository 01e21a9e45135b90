//! Decoding a raw hardware packet into typed samples. A packet is a burst
//! of little-endian bytes; each decoder reads a fixed number of samples and
//! states the value of every one of them.

use vstd::prelude::*;
use crate::sample::spec_wrap_i16;

verus! {

/// The unsigned 16-bit value of two little-endian bytes.
pub open spec fn spec_u16_from_le(lo: u8, hi: u8) -> u16 {
    (lo + hi * 256) as u16
}

/// The signed 16-bit value of two little-endian bytes: the unsigned value
/// reinterpreted in two's complement.
pub open spec fn spec_i16_from_le(lo: u8, hi: u8) -> i16 {
    spec_wrap_i16(spec_u16_from_le(lo, hi) as int)
}

/// The signed 32-bit value of four little-endian bytes, in two's
/// complement.
pub open spec fn spec_i32_from_le(b0: u8, b1: u8, b2: u8, b3: u8) -> i32 {
    let m = b0 + b1 * 0x100 + b2 * 0x1_0000 + b3 * 0x100_0000;
    if m < 0x8000_0000 {
        m as i32
    } else {
        (m - 0x1_0000_0000) as i32
    }
}

/// Reads one unsigned 16-bit sample from two little-endian bytes.
pub fn u16_from_le(lo: u8, hi: u8) -> (r: u16)
    ensures
        r == spec_u16_from_le(lo, hi),
{
    (lo as u16) + (hi as u16) * 256
}

/// Reads one signed 16-bit sample from two little-endian bytes.
pub fn i16_from_le(lo: u8, hi: u8) -> (r: i16)
    ensures
        r == spec_i16_from_le(lo, hi),
{
    let m = u16_from_le(lo, hi);
    if m < 32768 {
        m as i16
    } else {
        ((m as i32) - 65536) as i16
    }
}

/// Reads one signed 32-bit sample from four little-endian bytes.
pub fn i32_from_le(b0: u8, b1: u8, b2: u8, b3: u8) -> (r: i32)
    ensures
        r == spec_i32_from_le(b0, b1, b2, b3),
{
    let m = (b0 as u32) + (b1 as u32) * 0x100 + (b2 as u32) * 0x1_0000 + (b3 as u32) * 0x100_0000;
    if m < 0x8000_0000 {
        m as i32
    } else {
        ((m as i64) - 0x1_0000_0000) as i32
    }
}

/// Decodes `count` signed 16-bit samples from the head of a raw packet.
pub fn decode_i16_samples(bytes: &[u8], count: usize) -> (r: Vec<i16>)
    requires
        count * 2 <= bytes@.len(),
    ensures
        r@.len() == count,
        forall|k: int|
            0 <= k < count ==> r@[k] == spec_i16_from_le(bytes@[2 * k], bytes@[2 * k + 1]),
{
    // Reading the length ties the packet's size to its machine bound for
    // the loop's index arithmetic.
    let _len: usize = bytes.len();
    let mut r: Vec<i16> = Vec::new();
    let mut i: usize = 0;
    while i < count
        invariant
            i <= count,
            count * 2 <= bytes@.len(),
            bytes@.len() <= usize::MAX,
            r@.len() == i,
            forall|k: int|
                0 <= k < i ==> r@[k] == spec_i16_from_le(bytes@[2 * k], bytes@[2 * k + 1]),
        decreases count - i,
    {
        let s = i16_from_le(bytes[2 * i], bytes[2 * i + 1]);
        r.push(s);
        i = i + 1;
    }
    r
}

/// Decodes `count` unsigned 16-bit samples from the head of a raw packet.
pub fn decode_u16_samples(bytes: &[u8], count: usize) -> (r: Vec<u16>)
    requires
        count * 2 <= bytes@.len(),
    ensures
        r@.len() == count,
        forall|k: int|
            0 <= k < count ==> r@[k] == spec_u16_from_le(bytes@[2 * k], bytes@[2 * k + 1]),
{
    // Reading the length ties the packet's size to its machine bound for
    // the loop's index arithmetic.
    let _len: usize = bytes.len();
    let mut r: Vec<u16> = Vec::new();
    let mut i: usize = 0;
    while i < count
        invariant
            i <= count,
            count * 2 <= bytes@.len(),
            bytes@.len() <= usize::MAX,
            r@.len() == i,
            forall|k: int|
                0 <= k < i ==> r@[k] == spec_u16_from_le(bytes@[2 * k], bytes@[2 * k + 1]),
        decreases count - i,
    {
        let s = u16_from_le(bytes[2 * i], bytes[2 * i + 1]);
        r.push(s);
        i = i + 1;
    }
    r
}

/// Decodes `count` signed 32-bit samples from the head of a raw packet.
pub fn decode_i32_samples(bytes: &[u8], count: usize) -> (r: Vec<i32>)
    requires
        count * 4 <= bytes@.len(),
    ensures
        r@.len() == count,
        forall|k: int|
            0 <= k < count ==> r@[k] == spec_i32_from_le(
                bytes@[4 * k],
                bytes@[4 * k + 1],
                bytes@[4 * k + 2],
                bytes@[4 * k + 3],
            ),
{
    // Reading the length ties the packet's size to its machine bound for
    // the loop's index arithmetic.
    let _len: usize = bytes.len();
    let mut r: Vec<i32> = Vec::new();
    let mut i: usize = 0;
    while i < count
        invariant
            i <= count,
            count * 4 <= bytes@.len(),
            bytes@.len() <= usize::MAX,
            r@.len() == i,
            forall|k: int|
                0 <= k < i ==> r@[k] == spec_i32_from_le(
                    bytes@[4 * k],
                    bytes@[4 * k + 1],
                    bytes@[4 * k + 2],
                    bytes@[4 * k + 3],
                ),
        decreases count - i,
    {
        let s = i32_from_le(bytes[4 * i], bytes[4 * i + 1], bytes[4 * i + 2], bytes[4 * i + 3]);
        r.push(s);
        i = i + 1;
    }
    r
}

} // verus!
