//! Error values of the capture pipeline. Every fallible operation reports an
//! explicit error value; transient "no data" from the capture source is a
//! normal signal, not an error, and never appears here.

use vstd::prelude::*;

verus! {

/// What can go wrong while a capture session runs.
#[derive(Clone, Copy, Debug, PartialEq, Eq, Structural)]
pub enum CaptureError {
    /// The capture source was invalidated or reported an unrecoverable
    /// hardware error; fatal to the session, carrying the source's result
    /// code.
    DeviceFatal { code: i32 },
    /// A sink rejected a write; non-fatal, buffered samples are retained.
    SinkWrite,
    /// A sink failed to finalize; reported once at teardown.
    SinkClose,
    /// The negotiated stream format could not be understood.
    UnknownFormat,
}

/// Turns a platform result code into an explicit error value: negative codes
/// signal failure, all others success.
pub fn check_result(result: i32) -> (r: Result<(), CaptureError>)
    ensures
        result < 0 ==> r == Err::<(), CaptureError>(CaptureError::DeviceFatal { code: result }),
        result >= 0 ==> r == Ok::<(), CaptureError>(()),
{
    if result < 0 {
        Err(CaptureError::DeviceFatal { code: result })
    } else {
        Ok(())
    }
}

} // verus!
