//! Core of a loopback audio capture pipeline: a bounded ring buffer with a
//! drop-oldest overflow policy, conversions between fixed-width sample
//! representations, the negotiated stream format, and the state machine that
//! drives data from a capture source into a sink.

pub mod buffer;
pub mod capture;
pub mod error;
pub mod format;
pub mod packet;
pub mod sample;
pub mod sink;
