use audio_capture::capture::{
    buffer_duration_secs, samples_per_packet, wake_interval_ms, Action, CaptureSession, Phase,
};
use audio_capture::error::CaptureError;
use audio_capture::format::StreamFormat;
use audio_capture::packet::{decode_i16_samples, decode_i32_samples, decode_u16_samples};
use audio_capture::sink::{build_prediction_request, wav_params};

fn stereo_i16_format() -> StreamFormat {
    StreamFormat::from_raw(1, 2, 48000, 192000, 4, 16, 0).unwrap()
}

fn snapshot(s: &CaptureSession<i16>) -> Vec<i16> {
    s.buffer().as_slice().expect("well-formed").to_vec()
}

#[test]
fn wake_interval_is_half_the_hardware_buffer() {
    // A 48000-frame hardware buffer at 48000 frames per second lasts one
    // second; the loop wakes every half second.
    assert_eq!(wake_interval_ms(48000, 48000), 500);
    assert_eq!(wake_interval_ms(4800, 96000), 25);
    assert_eq!(wake_interval_ms(0, 48000), 0);
}

#[test]
fn buffer_duration_is_frames_over_rate() {
    assert_eq!(buffer_duration_secs(96000, 48000), 2);
    assert_eq!(buffer_duration_secs(24000, 48000), 0);
}

#[test]
fn packet_sample_count_uses_block_alignment() {
    // 10 frames of 4 bytes each hold 20 two-byte samples.
    assert_eq!(samples_per_packet(10, 4, 2), 20);
    // 7 frames of 8 bytes each hold 14 four-byte samples.
    assert_eq!(samples_per_packet(7, 8, 4), 14);
}

#[test]
fn packets_decode_little_endian() {
    let bytes = [0x01, 0x00, 0xFF, 0xFF, 0x00, 0x80];
    assert_eq!(decode_i16_samples(&bytes, 3), vec![1, -1, i16::MIN]);
    assert_eq!(decode_u16_samples(&bytes, 3), vec![1, 65535, 32768]);
    let bytes32 = [0x01, 0x00, 0x00, 0x00, 0xFF, 0xFF, 0xFF, 0xFF];
    assert_eq!(decode_i32_samples(&bytes32, 2), vec![1, -1]);
    // A shorter read takes only the head of the packet.
    assert_eq!(decode_i16_samples(&bytes, 1), vec![1]);
}

#[test]
fn one_drain_cycle_runs_in_order() {
    let mut s: CaptureSession<i16> = CaptureSession::new(stereo_i16_format(), 10, 500);
    assert_eq!(s.phase(), Phase::Idle);
    assert_eq!(s.start(), Action::Sleep { ms: 500 });
    assert_eq!(s.on_slept(), Action::QueryPending);
    assert_eq!(s.on_pending(2), Action::AcquirePacket);
    assert_eq!(s.on_packet(&[1, 2, 3, 4], 4, 2), Action::WriteSink { frames: 2 });
    assert_eq!(snapshot(&s), vec![1, 2, 3, 4]);
    assert_eq!(s.on_write_result(true), Action::ReleasePacket { frames: 2 });
    assert!(!s.last_write_failed());
    assert_eq!(s.on_released(), Action::QueryPending);
    assert_eq!(s.on_pending(0), Action::Sleep { ms: 500 });
    assert_eq!(s.phase(), Phase::Waiting);
}

#[test]
fn no_data_skips_write_and_release() {
    // The source reported pending frames but the acquisition came back
    // empty: nothing is written, nothing is released, and the loop goes to
    // the next wake interval.
    let mut s: CaptureSession<i16> = CaptureSession::new(stereo_i16_format(), 10, 500);
    s.start();
    s.on_slept();
    s.on_pending(3);
    s.on_packet(&[5, 6], 2, 1);
    s.on_write_result(true);
    s.on_released();
    assert_eq!(s.on_pending(1), Action::AcquirePacket);
    let before = snapshot(&s);
    let a = s.on_no_data();
    assert_eq!(a, Action::Sleep { ms: 500 });
    assert_eq!(snapshot(&s), before);
    assert_eq!(s.phase(), Phase::Waiting);
}

#[test]
fn failed_write_retains_buffer_and_next_write_sees_history() {
    // A forwarding sink timing out reports failure; the captured samples
    // stay buffered, and the snapshot of the next, successful write still
    // begins with them.
    let mut s: CaptureSession<i16> = CaptureSession::new(stereo_i16_format(), 10, 500);
    s.start();
    s.on_slept();
    s.on_pending(2);
    s.on_packet(&[1, 2, 3], 3, 2);
    assert_eq!(s.on_write_result(false), Action::ReleasePacket { frames: 2 });
    assert!(s.last_write_failed());
    assert_eq!(s.write_error(), Some(CaptureError::SinkWrite));
    assert_eq!(snapshot(&s), vec![1, 2, 3]);
    s.on_released();
    s.on_pending(1);
    s.on_packet(&[4, 5], 2, 1);
    let next_window = snapshot(&s);
    assert_eq!(next_window, vec![1, 2, 3, 4, 5]);
    assert_eq!(s.on_write_result(true), Action::ReleasePacket { frames: 1 });
    assert!(!s.last_write_failed());
    assert_eq!(s.write_error(), None);
}

#[test]
fn stop_mid_drain_releases_packet_and_closes_once() {
    let mut s: CaptureSession<i16> = CaptureSession::new(stereo_i16_format(), 10, 500);
    s.start();
    s.on_slept();
    s.on_pending(2);
    s.on_packet(&[1, 2], 2, 2);
    // The stop request arrives while a packet is held for writing.
    s.request_stop();
    // The held packet is still released before anything stops.
    assert_eq!(s.on_write_result(true), Action::ReleasePacket { frames: 2 });
    assert_eq!(s.on_released(), Action::QueryPending);
    // Remaining pending frames are still drained while stopping.
    assert_eq!(s.on_pending(1), Action::AcquirePacket);
    assert_eq!(s.on_packet(&[3], 1, 1), Action::WriteSink { frames: 1 });
    assert_eq!(s.on_write_result(true), Action::ReleasePacket { frames: 1 });
    assert_eq!(s.on_released(), Action::QueryPending);
    // Nothing pending any more: the sink is closed, exactly once, then done.
    assert_eq!(s.on_pending(0), Action::CloseSink);
    assert_eq!(s.on_closed(true), Action::Done);
    assert_eq!(s.phase(), Phase::Stopped);
    assert!(!s.close_failed());
    assert_eq!(s.close_error(), None);
    assert!(s.fatal_error().is_none());
}

#[test]
fn stop_with_empty_source_closes_from_no_data() {
    let mut s: CaptureSession<i16> = CaptureSession::new(stereo_i16_format(), 10, 500);
    s.start();
    s.on_slept();
    s.request_stop();
    s.on_pending(1);
    assert_eq!(s.on_no_data(), Action::CloseSink);
    assert_eq!(s.on_closed(false), Action::Done);
    assert!(s.close_failed());
    assert_eq!(s.close_error(), Some(CaptureError::SinkClose));
    assert_eq!(s.phase(), Phase::Stopped);
}

#[test]
fn device_error_is_fatal_and_still_closes_the_sink() {
    let mut s: CaptureSession<i16> = CaptureSession::new(stereo_i16_format(), 10, 500);
    s.start();
    s.on_slept();
    assert_eq!(s.on_device_error(-77), Action::CloseSink);
    assert_eq!(s.fatal_error(), Some(CaptureError::DeviceFatal { code: -77 }));
    assert_eq!(s.on_closed(true), Action::Done);
    assert_eq!(s.phase(), Phase::Stopped);
}

#[test]
fn device_error_on_release_closes_after_fatal() {
    let mut s: CaptureSession<i16> = CaptureSession::new(stereo_i16_format(), 10, 500);
    s.start();
    s.on_slept();
    s.on_pending(1);
    s.on_packet(&[9], 1, 1);
    s.on_write_result(true);
    // The release itself fails with a device invalidation.
    assert_eq!(s.on_device_error(-3), Action::CloseSink);
    assert_eq!(s.fatal_error(), Some(CaptureError::DeviceFatal { code: -3 }));
    assert_eq!(s.on_closed(true), Action::Done);
    assert_eq!(s.phase(), Phase::Stopped);
}

#[test]
fn prediction_request_carries_the_window() {
    let mut s: CaptureSession<i16> = CaptureSession::new(stereo_i16_format(), 10, 500);
    s.start();
    s.on_slept();
    s.on_pending(1);
    s.on_packet(&[10, 20, 30, 40], 4, 1);
    let r = build_prediction_request(s.buffer(), 2);
    assert_eq!(r.data_packet, vec![10, 20, 30, 40]);
    assert_eq!(r.data_size, 4);
    assert_eq!(r.channels, 2);
}

#[test]
fn wav_parameters_follow_the_stream_format() {
    let p = wav_params(&stereo_i16_format());
    assert_eq!(p.channels, 2);
    assert_eq!(p.sample_rate, 48000);
    assert_eq!(p.bits_per_sample, 32);
    assert!(p.float_samples);
}
