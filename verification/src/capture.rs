//! The capture session: the decision core of the loop that drives data from
//! the capture source into the buffer and on to the sink.
//!
//! The session is a state machine over plain values. The surrounding program
//! performs each returned [`Action`] against the platform (sleep, query,
//! acquire, write, release, close) and reports the outcome back through the
//! event methods; every decision in between is made and verified here.
//! A hardware packet, once acquired, is always released before the session
//! stops, and the sink is closed exactly once.

use vstd::prelude::*;
use crate::buffer::{ExtensibleBuffer, spec_extended};
use crate::error::CaptureError;
use crate::format::StreamFormat;

verus! {

/// Where the session stands between two events.
#[derive(Clone, Copy, Debug, PartialEq, Eq, Structural)]
pub enum Phase {
    /// Created, not yet started.
    Idle,
    /// Sleeping for one wake interval.
    Waiting,
    /// A query for the pending frame count is outstanding.
    CheckPending,
    /// A packet acquisition is outstanding.
    Acquiring,
    /// A sink write of the fresh snapshot is outstanding.
    Writing,
    /// The acquired hardware packet is being released.
    Releasing,
    /// The sink is being closed.
    Closing,
    /// Terminal: the session is over.
    Stopped,
}

/// What the surrounding program must do next.
#[derive(Clone, Copy, Debug, PartialEq, Eq, Structural)]
pub enum Action {
    /// Sleep for the given number of milliseconds, then report `on_slept`.
    Sleep { ms: u64 },
    /// Ask the source for its pending frame count; report `on_pending`.
    QueryPending,
    /// Acquire the next packet; report `on_packet` or `on_no_data`.
    AcquirePacket,
    /// Hand the buffer snapshot and frame count to the sink; report
    /// `on_write_result`.
    WriteSink { frames: u32 },
    /// Release the acquired hardware packet; report `on_released`.
    ReleasePacket { frames: u32 },
    /// Close the sink; report `on_closed`.
    CloseSink,
    /// Nothing left to do.
    Done,
}

/// Half the hardware buffer's duration in milliseconds: the wake interval
/// that guarantees the source's ring is drained before it wraps.
pub fn wake_interval_ms(buffer_frames: u32, samples_per_sec: u32) -> (ms: u64)
    requires
        samples_per_sec > 0,
    ensures
        ms == 1000 * buffer_frames / (samples_per_sec as int) / 2,
{
    1000u64 * (buffer_frames as u64) / (samples_per_sec as u64) / 2
}

/// The hardware buffer's duration in whole seconds.
pub fn buffer_duration_secs(buffer_frames: u32, samples_per_sec: u32) -> (s: u64)
    requires
        samples_per_sec > 0,
    ensures
        s == (buffer_frames as int) / (samples_per_sec as int),
{
    (buffer_frames as u64) / (samples_per_sec as u64)
}

/// How many samples a packet of `frames` frames holds: frames times bytes
/// per frame, divided by the bytes per sample.
pub fn samples_per_packet(frames: u32, block_align: u32, sample_size: usize) -> (n: usize)
    requires
        sample_size > 0,
        frames * block_align / (sample_size as int) <= usize::MAX,
    ensures
        n == frames * block_align / (sample_size as int),
{
    proof {
        assert((frames as int) * (block_align as int) <= 0xFFFF_FFFFu32 * 0xFFFF_FFFFu32)
            by (nonlinear_arith)
            requires
                frames <= 0xFFFF_FFFFu32,
                block_align <= 0xFFFF_FFFFu32,
        ;
    }
    ((frames as u64) * (block_align as u64) / (sample_size as u64)) as usize
}

/// The run of one capture loop against one source and one sink, generic over
/// the stream's sample encoding.
pub struct CaptureSession<T> {
    phase: Phase,
    buffer: ExtensibleBuffer<T>,
    format: StreamFormat,
    wake_ms: u64,
    held_frames: Option<u32>,
    stop_requested: bool,
    close_requested: bool,
    fatal_error: Option<CaptureError>,
    last_write_failed: bool,
    close_failed: bool,
}

impl<T: Copy> CaptureSession<T> {
    /// The session's phase.
    pub closed spec fn spec_phase(&self) -> Phase {
        self.phase
    }

    /// The buffered samples, oldest first.
    pub closed spec fn spec_buffer(&self) -> Seq<T> {
        self.buffer@
    }

    /// The buffer's fixed capacity.
    pub closed spec fn spec_max_len(&self) -> nat {
        self.buffer.spec_max_len()
    }

    /// The negotiated stream format.
    pub closed spec fn spec_format(&self) -> StreamFormat {
        self.format
    }

    /// The wake interval.
    pub closed spec fn spec_wake_ms(&self) -> u64 {
        self.wake_ms
    }

    /// The frame count of the acquired-but-unreleased hardware packet, if
    /// one is held.
    pub closed spec fn spec_held(&self) -> Option<u32> {
        self.held_frames
    }

    /// Whether a stop has been requested.
    pub closed spec fn spec_stop_requested(&self) -> bool {
        self.stop_requested
    }

    /// Whether the close of the sink has been issued.
    pub closed spec fn spec_close_requested(&self) -> bool {
        self.close_requested
    }

    /// The fatal device error, if one was reported.
    pub closed spec fn spec_fatal(&self) -> Option<CaptureError> {
        self.fatal_error
    }

    /// Whether the most recent sink write failed.
    pub closed spec fn spec_last_write_failed(&self) -> bool {
        self.last_write_failed
    }

    /// Whether the sink reported a failure on close.
    pub closed spec fn spec_close_failed(&self) -> bool {
        self.close_failed
    }

    /// The session invariant: the buffer is consistent and matches the
    /// stream's encoding; a hardware packet is held exactly while a write or
    /// release is outstanding; the sink close is issued exactly when the
    /// session is closing or stopped; and a stopped session holds no packet.
    pub closed spec fn well_formed(&self) -> bool {
        &&& self.buffer.well_formed()
        &&& self.buffer.spec_format() == self.format.sample_format
        &&& (self.held_frames is Some <==> (self.phase is Writing || self.phase is Releasing))
        &&& (self.close_requested <==> (self.phase is Closing || self.phase is Stopped))
    }

    /// The parts of the session no event may change.
    pub open spec fn same_config(pre: Self, post: Self) -> bool {
        &&& post.spec_wake_ms() == pre.spec_wake_ms()
        &&& post.spec_max_len() == pre.spec_max_len()
        &&& post.spec_format() == pre.spec_format()
    }

    /// Law: a session that reached the terminal phase holds no hardware
    /// packet and has had its sink close issued.
    pub proof fn lemma_stopped_clean(&self)
        requires
            self.well_formed(),
            self.spec_phase() is Stopped,
        ensures
            self.spec_held() is None,
            self.spec_close_requested(),
    {
    }

    /// Creates a session in the idle phase with an empty buffer of the given
    /// capacity.
    pub fn new(format: StreamFormat, capacity: usize, wake_ms: u64) -> (s: Self)
        requires
            capacity >= 1,
        ensures
            s.well_formed(),
            s.spec_phase() is Idle,
            s.spec_buffer() == Seq::<T>::empty(),
            s.spec_max_len() == capacity,
            s.spec_format() == format,
            s.spec_wake_ms() == wake_ms,
            s.spec_held() is None,
            !s.spec_stop_requested(),
            !s.spec_close_requested(),
            s.spec_fatal() is None,
            !s.spec_last_write_failed(),
            !s.spec_close_failed(),
    {
        CaptureSession {
            phase: Phase::Idle,
            buffer: ExtensibleBuffer::new(capacity, format.sample_format),
            format,
            wake_ms,
            held_frames: None,
            stop_requested: false,
            close_requested: false,
            fatal_error: None,
            last_write_failed: false,
            close_failed: false,
        }
    }

    /// Enters the running loop: the first act is to sleep one wake interval.
    pub fn start(&mut self) -> (a: Action)
        requires
            old(self).well_formed(),
            old(self).spec_phase() is Idle,
        ensures
            final(self).well_formed(),
            Self::same_config(*old(self), *final(self)),
            final(self).spec_phase() is Waiting,
            a == (Action::Sleep { ms: old(self).spec_wake_ms() }),
            final(self).spec_buffer() == old(self).spec_buffer(),
            final(self).spec_held() is None,
            final(self).spec_stop_requested() == old(self).spec_stop_requested(),
            !final(self).spec_close_requested(),
            final(self).spec_fatal() == old(self).spec_fatal(),
    {
        self.phase = Phase::Waiting;
        Action::Sleep { ms: self.wake_ms }
    }

    /// The wake interval elapsed: ask the source how many frames are
    /// pending.
    pub fn on_slept(&mut self) -> (a: Action)
        requires
            old(self).well_formed(),
            old(self).spec_phase() is Waiting,
        ensures
            final(self).well_formed(),
            Self::same_config(*old(self), *final(self)),
            final(self).spec_phase() is CheckPending,
            a == Action::QueryPending,
            final(self).spec_buffer() == old(self).spec_buffer(),
            final(self).spec_held() is None,
            final(self).spec_stop_requested() == old(self).spec_stop_requested(),
            !final(self).spec_close_requested(),
            final(self).spec_fatal() == old(self).spec_fatal(),
    {
        self.phase = Phase::CheckPending;
        Action::QueryPending
    }

    /// The source reported its pending frame count. Pending frames are
    /// drained, even while stopping; with nothing pending the session sleeps
    /// again, or, if a stop was requested, moves to closing the sink.
    pub fn on_pending(&mut self, pending_frames: u32) -> (a: Action)
        requires
            old(self).well_formed(),
            old(self).spec_phase() is CheckPending,
        ensures
            final(self).well_formed(),
            Self::same_config(*old(self), *final(self)),
            final(self).spec_buffer() == old(self).spec_buffer(),
            final(self).spec_held() is None,
            final(self).spec_stop_requested() == old(self).spec_stop_requested(),
            final(self).spec_fatal() == old(self).spec_fatal(),
            pending_frames > 0 ==> {
                &&& final(self).spec_phase() is Acquiring
                &&& a == Action::AcquirePacket
                &&& !final(self).spec_close_requested()
            },
            pending_frames == 0 && !old(self).spec_stop_requested() ==> {
                &&& final(self).spec_phase() is Waiting
                &&& a == (Action::Sleep { ms: old(self).spec_wake_ms() })
                &&& !final(self).spec_close_requested()
            },
            pending_frames == 0 && old(self).spec_stop_requested() ==> {
                &&& final(self).spec_phase() is Closing
                &&& a == Action::CloseSink
                &&& final(self).spec_close_requested()
            },
            a is CloseSink ==> !old(self).spec_close_requested(),
    {
        if pending_frames > 0 {
            self.phase = Phase::Acquiring;
            Action::AcquirePacket
        } else if self.stop_requested {
            self.phase = Phase::Closing;
            self.close_requested = true;
            Action::CloseSink
        } else {
            self.phase = Phase::Waiting;
            Action::Sleep { ms: self.wake_ms }
        }
    }

    /// A packet was acquired: absorb its samples into the buffer, hold the
    /// packet's frame count, and hand the snapshot to the sink. A burst
    /// larger than the whole capacity is a caller logic error and is
    /// excluded up front.
    pub fn on_packet(&mut self, samples: &[T], sample_count: usize, frames: u32) -> (a: Action)
        requires
            old(self).well_formed(),
            old(self).spec_phase() is Acquiring,
            sample_count == samples@.len(),
            sample_count <= old(self).spec_max_len(),
        ensures
            final(self).well_formed(),
            Self::same_config(*old(self), *final(self)),
            final(self).spec_phase() is Writing,
            a == (Action::WriteSink { frames }),
            final(self).spec_buffer() == spec_extended(
                old(self).spec_buffer(),
                samples@,
                old(self).spec_max_len(),
            ),
            final(self).spec_held() == Some(frames),
            final(self).spec_stop_requested() == old(self).spec_stop_requested(),
            !final(self).spec_close_requested(),
            final(self).spec_fatal() == old(self).spec_fatal(),
    {
        self.buffer.extend(samples, sample_count);
        self.held_frames = Some(frames);
        self.phase = Phase::Writing;
        Action::WriteSink { frames }
    }

    /// The source reported no data for this drain cycle: nothing is written,
    /// nothing is extended, and no packet release is due; the session
    /// proceeds to the next wake interval, or to closing if a stop was
    /// requested.
    pub fn on_no_data(&mut self) -> (a: Action)
        requires
            old(self).well_formed(),
            old(self).spec_phase() is Acquiring,
        ensures
            final(self).well_formed(),
            Self::same_config(*old(self), *final(self)),
            final(self).spec_buffer() == old(self).spec_buffer(),
            final(self).spec_held() is None,
            a !is ReleasePacket && a !is WriteSink,
            final(self).spec_stop_requested() == old(self).spec_stop_requested(),
            final(self).spec_fatal() == old(self).spec_fatal(),
            !old(self).spec_stop_requested() ==> {
                &&& final(self).spec_phase() is Waiting
                &&& a == (Action::Sleep { ms: old(self).spec_wake_ms() })
                &&& !final(self).spec_close_requested()
            },
            old(self).spec_stop_requested() ==> {
                &&& final(self).spec_phase() is Closing
                &&& a == Action::CloseSink
                &&& final(self).spec_close_requested()
            },
            a is CloseSink ==> !old(self).spec_close_requested(),
    {
        if self.stop_requested {
            self.phase = Phase::Closing;
            self.close_requested = true;
            Action::CloseSink
        } else {
            self.phase = Phase::Waiting;
            Action::Sleep { ms: self.wake_ms }
        }
    }

    /// The sink reported the outcome of the write. Success or failure, the
    /// buffered samples are retained and the held hardware packet must now
    /// be released.
    pub fn on_write_result(&mut self, ok: bool) -> (a: Action)
        requires
            old(self).well_formed(),
            old(self).spec_phase() is Writing,
        ensures
            final(self).well_formed(),
            Self::same_config(*old(self), *final(self)),
            final(self).spec_phase() is Releasing,
            final(self).spec_buffer() == old(self).spec_buffer(),
            final(self).spec_held() == old(self).spec_held(),
            a == (Action::ReleasePacket { frames: old(self).spec_held()->0 }),
            final(self).spec_last_write_failed() == !ok,
            final(self).spec_stop_requested() == old(self).spec_stop_requested(),
            !final(self).spec_close_requested(),
            final(self).spec_fatal() == old(self).spec_fatal(),
    {
        self.last_write_failed = !ok;
        self.phase = Phase::Releasing;
        let frames = match self.held_frames {
            Some(f) => f,
            None => 0,  // unreachable: a write is outstanding only while a packet is held
        };
        Action::ReleasePacket { frames }
    }

    /// The hardware packet was released. The drain continues with a fresh
    /// pending query, unless a fatal device error was recorded, in which
    /// case the sink is closed.
    pub fn on_released(&mut self) -> (a: Action)
        requires
            old(self).well_formed(),
            old(self).spec_phase() is Releasing,
        ensures
            final(self).well_formed(),
            Self::same_config(*old(self), *final(self)),
            final(self).spec_buffer() == old(self).spec_buffer(),
            final(self).spec_held() is None,
            final(self).spec_stop_requested() == old(self).spec_stop_requested(),
            final(self).spec_fatal() == old(self).spec_fatal(),
            old(self).spec_fatal() is None ==> {
                &&& final(self).spec_phase() is CheckPending
                &&& a == Action::QueryPending
                &&& !final(self).spec_close_requested()
            },
            old(self).spec_fatal() is Some ==> {
                &&& final(self).spec_phase() is Closing
                &&& a == Action::CloseSink
                &&& final(self).spec_close_requested()
            },
            a is CloseSink ==> !old(self).spec_close_requested(),
    {
        self.held_frames = None;
        match self.fatal_error {
            None => {
                self.phase = Phase::CheckPending;
                Action::QueryPending
            },
            Some(_) => {
                self.phase = Phase::Closing;
                self.close_requested = true;
                Action::CloseSink
            },
        }
    }

    /// The source reported a fatal error (device invalidated) on a query,
    /// an acquisition, or a release. The session records it and stops by
    /// closing the sink; a packet held at a failed release is gone with the
    /// device, so nothing remains to hold.
    pub fn on_device_error(&mut self, code: i32) -> (a: Action)
        requires
            old(self).well_formed(),
            old(self).spec_phase() is CheckPending || old(self).spec_phase() is Acquiring
                || old(self).spec_phase() is Releasing,
        ensures
            final(self).well_formed(),
            Self::same_config(*old(self), *final(self)),
            final(self).spec_buffer() == old(self).spec_buffer(),
            final(self).spec_held() is None,
            final(self).spec_phase() is Closing,
            a == Action::CloseSink,
            final(self).spec_close_requested(),
            final(self).spec_fatal() == Some(CaptureError::DeviceFatal { code }),
            final(self).spec_stop_requested() == old(self).spec_stop_requested(),
            a is CloseSink ==> !old(self).spec_close_requested(),
    {
        self.fatal_error = Some(CaptureError::DeviceFatal { code });
        self.held_frames = None;
        self.phase = Phase::Closing;
        self.close_requested = true;
        Action::CloseSink
    }

    /// Requests a stop. The request is observed between drain iterations:
    /// pending packets are still drained and released before the sink is
    /// closed.
    pub fn request_stop(&mut self)
        requires
            old(self).well_formed(),
        ensures
            final(self).well_formed(),
            Self::same_config(*old(self), *final(self)),
            final(self).spec_stop_requested(),
            final(self).spec_phase() == old(self).spec_phase(),
            final(self).spec_buffer() == old(self).spec_buffer(),
            final(self).spec_held() == old(self).spec_held(),
            final(self).spec_close_requested() == old(self).spec_close_requested(),
            final(self).spec_fatal() == old(self).spec_fatal(),
    {
        self.stop_requested = true;
    }

    /// The sink finished closing (or failed to); either way the session is
    /// over and every resource has been handed back.
    pub fn on_closed(&mut self, ok: bool) -> (a: Action)
        requires
            old(self).well_formed(),
            old(self).spec_phase() is Closing,
        ensures
            final(self).well_formed(),
            Self::same_config(*old(self), *final(self)),
            final(self).spec_phase() is Stopped,
            a == Action::Done,
            final(self).spec_buffer() == old(self).spec_buffer(),
            final(self).spec_held() is None,
            final(self).spec_close_requested(),
            final(self).spec_close_failed() == !ok,
            final(self).spec_fatal() == old(self).spec_fatal(),
    {
        self.close_failed = !ok;
        self.phase = Phase::Stopped;
        Action::Done
    }

    /// The session's phase, for the surrounding program.
    pub fn phase(&self) -> (p: Phase)
        ensures
            p == self.spec_phase(),
    {
        self.phase
    }

    /// Read-only access to the buffered samples for handing a snapshot to a
    /// sink.
    pub fn buffer(&self) -> (b: &ExtensibleBuffer<T>)
        requires
            self.well_formed(),
        ensures
            b.well_formed(),
            b@ == self.spec_buffer(),
            b.spec_max_len() == self.spec_max_len(),
            b.spec_format() == self.spec_format().sample_format,
    {
        &self.buffer
    }

    /// The recorded fatal device error, if any.
    pub fn fatal_error(&self) -> (e: Option<CaptureError>)
        ensures
            e == self.spec_fatal(),
    {
        self.fatal_error
    }

    /// Whether the most recent sink write failed.
    pub fn last_write_failed(&self) -> (r: bool)
        ensures
            r == self.spec_last_write_failed(),
    {
        self.last_write_failed
    }

    /// The error of the most recent sink write: a write failure exactly
    /// when one was reported, and never anything fatal.
    pub fn write_error(&self) -> (e: Option<CaptureError>)
        ensures
            e == if self.spec_last_write_failed() {
                Some(CaptureError::SinkWrite)
            } else {
                None::<CaptureError>
            },
    {
        if self.last_write_failed {
            Some(CaptureError::SinkWrite)
        } else {
            None
        }
    }

    /// The error of the sink's close: a close failure exactly when one was
    /// reported at teardown.
    pub fn close_error(&self) -> (e: Option<CaptureError>)
        ensures
            e == if self.spec_close_failed() {
                Some(CaptureError::SinkClose)
            } else {
                None::<CaptureError>
            },
    {
        if self.close_failed {
            Some(CaptureError::SinkClose)
        } else {
            None
        }
    }

    /// Whether the sink reported a failure when it was closed.
    pub fn close_failed(&self) -> (r: bool)
        ensures
            r == self.spec_close_failed(),
    {
        self.close_failed
    }
}

} // verus!
