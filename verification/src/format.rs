//! The negotiated stream format: the wave-format tag, the per-stream frame
//! geometry, and the sample representation derived from them. The raw values
//! arrive from the platform's format negotiation; deciding what they mean is
//! done here, on plain integers.

use vstd::prelude::*;
use crate::error::CaptureError;
use crate::sample::SampleFormat;

verus! {

/// The wave-format tag of the negotiated stream, one of the registered
/// container encodings.
#[derive(Clone, Copy, Debug, PartialEq, Eq, Structural)]
pub enum FormatTag {
    PCM,
    IeeFloat,
    DRM,
    Extensible,
    Alaw,
    Mulaw,
    ADPCM,
    MPEG,
    DolbySpdif,
    WmaSpdif,
}

/// The registered numeric value of each wave-format tag.
pub open spec fn spec_tag_value(t: FormatTag) -> u16 {
    match t {
        FormatTag::PCM => 1,
        FormatTag::ADPCM => 2,
        FormatTag::IeeFloat => 3,
        FormatTag::Alaw => 6,
        FormatTag::Mulaw => 7,
        FormatTag::DRM => 9,
        FormatTag::MPEG => 0x50,
        FormatTag::DolbySpdif => 0x92,
        FormatTag::WmaSpdif => 0x164,
        FormatTag::Extensible => 0xFFFE,
    }
}

/// The tag a raw value stands for, or `None` for an unregistered value.
pub open spec fn spec_tag_from_value(x: u16) -> Option<FormatTag> {
    if x == 1 {
        Some(FormatTag::PCM)
    } else if x == 2 {
        Some(FormatTag::ADPCM)
    } else if x == 3 {
        Some(FormatTag::IeeFloat)
    } else if x == 6 {
        Some(FormatTag::Alaw)
    } else if x == 7 {
        Some(FormatTag::Mulaw)
    } else if x == 9 {
        Some(FormatTag::DRM)
    } else if x == 0x50 {
        Some(FormatTag::MPEG)
    } else if x == 0x92 {
        Some(FormatTag::DolbySpdif)
    } else if x == 0x164 {
        Some(FormatTag::WmaSpdif)
    } else if x == 0xFFFE {
        Some(FormatTag::Extensible)
    } else {
        None
    }
}

impl FormatTag {
    /// The registered numeric value of this tag.
    pub fn value(&self) -> (v: u16)
        ensures
            v == spec_tag_value(*self),
    {
        match *self {
            FormatTag::PCM => 1,
            FormatTag::ADPCM => 2,
            FormatTag::IeeFloat => 3,
            FormatTag::Alaw => 6,
            FormatTag::Mulaw => 7,
            FormatTag::DRM => 9,
            FormatTag::MPEG => 0x50,
            FormatTag::DolbySpdif => 0x92,
            FormatTag::WmaSpdif => 0x164,
            FormatTag::Extensible => 0xFFFE,
        }
    }

    /// Decodes a raw tag value; an unregistered value yields `None`.
    pub fn from_value(x: u16) -> (r: Option<FormatTag>)
        ensures
            r == spec_tag_from_value(x),
    {
        if x == 1 {
            Some(FormatTag::PCM)
        } else if x == 2 {
            Some(FormatTag::ADPCM)
        } else if x == 3 {
            Some(FormatTag::IeeFloat)
        } else if x == 6 {
            Some(FormatTag::Alaw)
        } else if x == 7 {
            Some(FormatTag::Mulaw)
        } else if x == 9 {
            Some(FormatTag::DRM)
        } else if x == 0x50 {
            Some(FormatTag::MPEG)
        } else if x == 0x92 {
            Some(FormatTag::DolbySpdif)
        } else if x == 0x164 {
            Some(FormatTag::WmaSpdif)
        } else if x == 0xFFFE {
            Some(FormatTag::Extensible)
        } else {
            None
        }
    }
}

/// Law: decoding the registered value of a tag yields that tag back.
pub proof fn lemma_tag_value_round_trip(t: FormatTag)
    ensures
        spec_tag_from_value(spec_tag_value(t)) == Some(t),
{
}

/// The sample representation a negotiated format implies: 16-bit plain PCM
/// is signed 16-bit, every 32-bit stream is taken as float, and anything
/// else cannot be ascertained.
pub open spec fn spec_negotiated_sample_format(bits: u16, tag: FormatTag) -> Option<SampleFormat> {
    if bits == 16 && tag is PCM {
        Some(SampleFormat::I16)
    } else if bits == 32 {
        Some(SampleFormat::F32)
    } else {
        None
    }
}

/// Negotiated properties of the audio stream, immutable once built.
#[derive(Clone, Copy, Debug)]
pub struct StreamFormat {
    pub format_tag: FormatTag,
    pub n_channels: u32,
    pub n_sample_per_sec: u32,
    pub n_avg_bytes_per_sec: u32,
    pub n_block_align: u32,
    pub w_bits_per_sample: u32,
    pub cb_size: u32,
    pub sample_format: SampleFormat,
}

impl StreamFormat {
    /// Builds the stream format from the raw fields the platform's format
    /// negotiation hands back. Fails exactly when the tag value is
    /// unregistered or the tag and bit width imply no known sample
    /// representation.
    pub fn from_raw(
        w_format_tag: u16,
        n_channels: u16,
        n_samples_per_sec: u32,
        n_avg_bytes_per_sec: u32,
        n_block_align: u16,
        w_bits_per_sample: u16,
        cb_size: u16,
    ) -> (r: Result<StreamFormat, CaptureError>)
        ensures
            r is Ok <==> (spec_tag_from_value(w_format_tag) matches Some(t)
                && spec_negotiated_sample_format(w_bits_per_sample, t) is Some),
            r matches Ok(f) ==> {
                &&& Some(f.format_tag) == spec_tag_from_value(w_format_tag)
                &&& Some(f.sample_format) == spec_negotiated_sample_format(
                    w_bits_per_sample,
                    f.format_tag,
                )
                &&& f.n_channels == n_channels
                &&& f.n_sample_per_sec == n_samples_per_sec
                &&& f.n_avg_bytes_per_sec == n_avg_bytes_per_sec
                &&& f.n_block_align == n_block_align
                &&& f.w_bits_per_sample == w_bits_per_sample
                &&& f.cb_size == cb_size
            },
            r matches Err(e) ==> e == CaptureError::UnknownFormat,
    {
        let format_tag = match FormatTag::from_value(w_format_tag) {
            Some(t) => t,
            None => {
                return Err(CaptureError::UnknownFormat);
            },
        };
        let sample_format = if w_bits_per_sample == 16 && matches!(format_tag, FormatTag::PCM) {
            SampleFormat::I16
        } else if w_bits_per_sample == 32 {
            SampleFormat::F32
        } else {
            return Err(CaptureError::UnknownFormat);
        };
        Ok(
            StreamFormat {
                format_tag,
                n_channels: n_channels as u32,
                n_sample_per_sec: n_samples_per_sec,
                n_avg_bytes_per_sec: n_avg_bytes_per_sec,
                n_block_align: n_block_align as u32,
                w_bits_per_sample: w_bits_per_sample as u32,
                cb_size: cb_size as u32,
                sample_format,
            },
        )
    }
}

} // verus!
