//! Sample representations and the conversion rules between them.
//!
//! A sample is one audio value in one of four fixed-width encodings. The
//! conversions are total: they never fail, and the widening/narrowing rules
//! are stated exactly, including the 32768 bias that the narrowing
//! conversions apply.

use vstd::prelude::*;
use vstd::arithmetic::div_mod::lemma_mod_multiples_vanish;

verus! {

/// The numeric encoding of a sample. The 32-bit float encoding exists in the
/// stream format negotiation; float-valued conversions live outside this
/// library.
#[derive(Clone, Copy, Debug, PartialEq, Eq, Structural)]
pub enum SampleFormat {
    I16,
    I32,
    U16,
    F32,
}

/// Byte width of one sample in the given encoding.
pub open spec fn spec_sample_size(f: SampleFormat) -> usize {
    match f {
        SampleFormat::I16 => 2,
        SampleFormat::I32 => 4,
        SampleFormat::U16 => 2,
        SampleFormat::F32 => 4,
    }
}

impl SampleFormat {
    /// Byte width of one sample in this encoding.
    pub fn sample_size(&self) -> (n: usize)
        ensures
            n == spec_sample_size(*self),
    {
        match *self {
            SampleFormat::I16 => 2,
            SampleFormat::I32 => 4,
            SampleFormat::U16 => 2,
            SampleFormat::F32 => 4,
        }
    }
}

/// A 16-bit signed sample maps to unsigned by a 32768 bias.
pub open spec fn spec_i16_to_u16(v: i16) -> u16 {
    (v + 32768) as u16
}

/// A 16-bit unsigned sample maps to signed by removing the 32768 bias.
pub open spec fn spec_u16_to_i16(v: u16) -> i16 {
    (v - 32768) as i16
}

/// Widening a 16-bit signed sample to 32 bits sign-extends without scaling.
pub open spec fn spec_i16_to_i32(v: i16) -> i32 {
    v as i32
}

/// The 16-bit signed value congruent to `n` modulo 2^16.
pub open spec fn spec_wrap_i16(n: int) -> i16 {
    let m = n % 65536;
    if m < 32768 {
        m as i16
    } else {
        (m - 65536) as i16
    }
}

/// Narrowing a 32-bit signed sample applies a 32768 bias and keeps the low
/// 16 bits. This deliberately treats the 32-bit value as already
/// magnitude-limited rather than rescaling the full range; see
/// `lemma_i32_narrowing_magnitude_limited` for the window it recovers.
pub open spec fn spec_i32_to_i16(v: i32) -> i16 {
    spec_wrap_i16(v + 32768)
}

/// Narrowing a 32-bit signed sample to unsigned goes through the signed
/// 16-bit encoding.
pub open spec fn spec_i32_to_u16(v: i32) -> u16 {
    spec_i16_to_u16(spec_i32_to_i16(v))
}

/// Widening a 16-bit unsigned sample goes through the signed 16-bit encoding.
pub open spec fn spec_u16_to_i32(v: u16) -> i32 {
    spec_u16_to_i16(v) as i32
}

/// Converts a 16-bit signed sample to its unsigned encoding.
pub fn i16_to_u16(v: i16) -> (r: u16)
    ensures
        r == spec_i16_to_u16(v),
{
    if v < 0 {
        (v - i16::MIN) as u16
    } else {
        (v as u16) + 32768
    }
}

/// Converts a 16-bit unsigned sample to its signed encoding.
pub fn u16_to_i16(v: u16) -> (r: i16)
    ensures
        r == spec_u16_to_i16(v),
{
    if v >= 32768 {
        (v - 32768) as i16
    } else {
        (v as i16) - 32767 - 1
    }
}

/// Widens a 16-bit signed sample to 32 bits.
pub fn i16_to_i32(v: i16) -> (r: i32)
    ensures
        r == spec_i16_to_i32(v),
{
    v as i32
}

/// Narrows a 32-bit signed sample to 16 bits with the 32768 bias.
pub fn i32_to_i16(v: i32) -> (r: i16)
    ensures
        r == spec_i32_to_i16(v),
{
    proof {
        // 2147483648 == 65536 * 32768, so adding it leaves the low 16 bits alone.
        lemma_mod_multiples_vanish(32768, v + 32768, 65536);
    }
    let m: i64 = ((v as i64) + 32768 + 2147483648) % 65536;
    if m < 32768 {
        m as i16
    } else {
        (m - 65536) as i16
    }
}

/// Narrows a 32-bit signed sample to the unsigned 16-bit encoding.
pub fn i32_to_u16(v: i32) -> (r: u16)
    ensures
        r == spec_i32_to_u16(v),
{
    i16_to_u16(i32_to_i16(v))
}

/// Widens a 16-bit unsigned sample to 32 bits through the signed encoding.
pub fn u16_to_i32(v: u16) -> (r: i32)
    ensures
        r == spec_u16_to_i32(v),
{
    u16_to_i16(v) as i32
}

/// Trait for the integer sample encodings. Each encoding names its format
/// tag and converts to every integer encoding; the conversions are pinned to
/// the free conversion functions above.
pub trait Sample: Copy + Sized {
    /// The format tag of this encoding.
    spec fn spec_format() -> SampleFormat;

    /// What `to_i16` returns.
    spec fn spec_to_i16(self) -> i16;

    /// What `to_i32` returns.
    spec fn spec_to_i32(self) -> i32;

    /// What `to_u16` returns.
    spec fn spec_to_u16(self) -> u16;

    /// The format tag of this encoding.
    fn format() -> (f: SampleFormat)
        ensures
            f == Self::spec_format(),
    ;

    /// Converts this sample into the signed 16-bit encoding.
    fn to_i16(&self) -> (r: i16)
        ensures
            r == self.spec_to_i16(),
    ;

    /// Converts this sample into the signed 32-bit encoding.
    fn to_i32(&self) -> (r: i32)
        ensures
            r == self.spec_to_i32(),
    ;

    /// Converts this sample into the unsigned 16-bit encoding.
    fn to_u16(&self) -> (r: u16)
        ensures
            r == self.spec_to_u16(),
    ;
}

impl Sample for i16 {
    open spec fn spec_format() -> SampleFormat {
        SampleFormat::I16
    }

    open spec fn spec_to_i16(self) -> i16 {
        self
    }

    open spec fn spec_to_i32(self) -> i32 {
        spec_i16_to_i32(self)
    }

    open spec fn spec_to_u16(self) -> u16 {
        spec_i16_to_u16(self)
    }

    fn format() -> SampleFormat {
        SampleFormat::I16
    }

    fn to_i16(&self) -> i16 {
        *self
    }

    fn to_i32(&self) -> i32 {
        i16_to_i32(*self)
    }

    fn to_u16(&self) -> u16 {
        i16_to_u16(*self)
    }
}

impl Sample for i32 {
    open spec fn spec_format() -> SampleFormat {
        SampleFormat::I32
    }

    open spec fn spec_to_i16(self) -> i16 {
        spec_i32_to_i16(self)
    }

    open spec fn spec_to_i32(self) -> i32 {
        self
    }

    open spec fn spec_to_u16(self) -> u16 {
        spec_i32_to_u16(self)
    }

    fn format() -> SampleFormat {
        SampleFormat::I32
    }

    fn to_i16(&self) -> i16 {
        i32_to_i16(*self)
    }

    fn to_i32(&self) -> i32 {
        *self
    }

    fn to_u16(&self) -> u16 {
        i32_to_u16(*self)
    }
}

impl Sample for u16 {
    open spec fn spec_format() -> SampleFormat {
        SampleFormat::U16
    }

    open spec fn spec_to_i16(self) -> i16 {
        spec_u16_to_i16(self)
    }

    open spec fn spec_to_i32(self) -> i32 {
        spec_u16_to_i32(self)
    }

    open spec fn spec_to_u16(self) -> u16 {
        self
    }

    fn format() -> SampleFormat {
        SampleFormat::U16
    }

    fn to_i16(&self) -> i16 {
        u16_to_i16(*self)
    }

    fn to_i32(&self) -> i32 {
        u16_to_i32(*self)
    }

    fn to_u16(&self) -> u16 {
        *self
    }
}

/// Law: converting a signed 16-bit sample to unsigned and back recovers the
/// value exactly; the two 32768 biases cancel.
pub proof fn lemma_i16_u16_round_trip(v: i16)
    ensures
        spec_u16_to_i16(spec_i16_to_u16(v)) == v,
{
}

/// Law: converting an unsigned 16-bit sample to signed and back recovers the
/// value exactly.
pub proof fn lemma_u16_i16_round_trip(v: u16)
    ensures
        spec_i16_to_u16(spec_u16_to_i16(v)) == v,
{
}

/// Law: for a 32-bit value already limited to an unsigned 16-bit magnitude,
/// the narrowing removes exactly the 32768 bias, so narrowing on to the
/// unsigned encoding recovers the value. Outside this range the narrowing
/// wraps and recovers nothing; it is not a full-range rescaling.
pub proof fn lemma_i32_narrowing_magnitude_limited(v: i32)
    requires
        0 <= v <= 65535,
    ensures
        spec_i32_to_i16(v) == v - 32768,
        spec_i32_to_u16(v) == v,
{
}

} // verus!
