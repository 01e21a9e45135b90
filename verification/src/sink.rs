//! What the sinks consume, computed from verified state: the request a
//! forwarding sink sends to the prediction service, and the parameters a
//! file sink opens its container with. The transport and the file are I/O
//! performed by the surrounding program; their payloads are pinned here.

use vstd::prelude::*;
use crate::buffer::ExtensibleBuffer;
use crate::format::StreamFormat;

verus! {

/// The payload a forwarding sink sends to the prediction service: the
/// buffered window, its sample count, and the channel count.
pub struct PredictionRequest<T> {
    pub data_packet: Vec<T>,
    pub data_size: usize,
    pub channels: usize,
}

/// Builds the prediction request from a snapshot of the buffer: exactly the
/// buffered samples, oldest first, with their count and the stream's
/// channel count.
pub fn build_prediction_request<T: Copy>(buffer: &ExtensibleBuffer<T>, channels: usize) -> (r:
    PredictionRequest<T>)
    requires
        buffer.well_formed(),
    ensures
        r.data_packet@ == buffer@,
        r.data_size == buffer@.len(),
        r.channels == channels,
{
    let data_packet: Vec<T> = match buffer.as_slice() {
        Some(s) => vstd::slice::slice_to_vec(s),
        None => Vec::new(),  // unreachable: a well-formed buffer always has a view
    };
    let data_size = buffer.len();
    PredictionRequest { data_packet, data_size, channels }
}

/// The parameters a file sink opens its audio container with.
pub struct WavParams {
    pub channels: u16,
    pub sample_rate: u32,
    pub bits_per_sample: u16,
    pub float_samples: bool,
}

/// Derives the container parameters from the negotiated stream format: the
/// stream's channel count and rate, always written as 32-bit float samples.
pub fn wav_params(format: &StreamFormat) -> (p: WavParams)
    requires
        format.n_channels <= u16::MAX,
    ensures
        p.channels == format.n_channels,
        p.sample_rate == format.n_sample_per_sec,
        p.bits_per_sample == 32,
        p.float_samples,
{
    WavParams {
        channels: format.n_channels as u16,
        sample_rate: format.n_sample_per_sec,
        bits_per_sample: 32,
        float_samples: true,
    }
}

} // verus!
