use audio_capture::error::{check_result, CaptureError};
use audio_capture::format::{FormatTag, StreamFormat};
use audio_capture::sample::SampleFormat;

#[test]
fn tag_values_are_the_registered_ones() {
    assert_eq!(FormatTag::PCM.value(), 1);
    assert_eq!(FormatTag::ADPCM.value(), 2);
    assert_eq!(FormatTag::IeeFloat.value(), 3);
    assert_eq!(FormatTag::Alaw.value(), 6);
    assert_eq!(FormatTag::Mulaw.value(), 7);
    assert_eq!(FormatTag::DRM.value(), 9);
    assert_eq!(FormatTag::MPEG.value(), 0x50);
    assert_eq!(FormatTag::DolbySpdif.value(), 0x92);
    assert_eq!(FormatTag::WmaSpdif.value(), 0x164);
    assert_eq!(FormatTag::Extensible.value(), 0xFFFE);
}

#[test]
fn tag_round_trips_through_its_value() {
    let tags = [
        FormatTag::PCM,
        FormatTag::ADPCM,
        FormatTag::IeeFloat,
        FormatTag::Alaw,
        FormatTag::Mulaw,
        FormatTag::DRM,
        FormatTag::MPEG,
        FormatTag::DolbySpdif,
        FormatTag::WmaSpdif,
        FormatTag::Extensible,
    ];
    for t in tags {
        assert_eq!(FormatTag::from_value(t.value()), Some(t));
    }
}

#[test]
fn unregistered_tag_value_is_rejected() {
    assert_eq!(FormatTag::from_value(0), None);
    assert_eq!(FormatTag::from_value(4), None);
    assert_eq!(FormatTag::from_value(12345), None);
}

#[test]
fn sixteen_bit_pcm_negotiates_signed_16() {
    let f = StreamFormat::from_raw(1, 2, 48000, 192000, 4, 16, 0).unwrap();
    assert_eq!(f.sample_format, SampleFormat::I16);
    assert_eq!(f.format_tag, FormatTag::PCM);
    assert_eq!(f.n_channels, 2);
    assert_eq!(f.n_sample_per_sec, 48000);
    assert_eq!(f.n_avg_bytes_per_sec, 192000);
    assert_eq!(f.n_block_align, 4);
    assert_eq!(f.w_bits_per_sample, 16);
    assert_eq!(f.cb_size, 0);
}

#[test]
fn thirty_two_bit_float_negotiates_float() {
    let f = StreamFormat::from_raw(3, 2, 96000, 768000, 8, 32, 0).unwrap();
    assert_eq!(f.sample_format, SampleFormat::F32);
    assert_eq!(f.format_tag, FormatTag::IeeFloat);
}

#[test]
fn any_thirty_two_bit_stream_is_taken_as_float() {
    let f = StreamFormat::from_raw(1, 2, 44100, 352800, 8, 32, 0).unwrap();
    assert_eq!(f.sample_format, SampleFormat::F32);
    assert_eq!(f.format_tag, FormatTag::PCM);
}

#[test]
fn unknown_format_combinations_are_rejected() {
    // 16-bit with a non-PCM tag implies no known representation.
    assert_eq!(
        StreamFormat::from_raw(6, 1, 8000, 8000, 1, 16, 0).unwrap_err(),
        CaptureError::UnknownFormat
    );
    // An unregistered tag value.
    assert_eq!(
        StreamFormat::from_raw(5, 2, 48000, 192000, 4, 16, 0).unwrap_err(),
        CaptureError::UnknownFormat
    );
    // An unusable bit width.
    assert_eq!(
        StreamFormat::from_raw(1, 2, 48000, 96000, 2, 8, 0).unwrap_err(),
        CaptureError::UnknownFormat
    );
}

#[test]
fn negative_result_codes_are_fatal() {
    assert_eq!(check_result(-1), Err(CaptureError::DeviceFatal { code: -1 }));
    assert_eq!(check_result(i32::MIN), Err(CaptureError::DeviceFatal { code: i32::MIN }));
    assert_eq!(check_result(0), Ok(()));
    assert_eq!(check_result(7), Ok(()));
}
