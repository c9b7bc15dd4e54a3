use vstd::prelude::*;

verus! {

/// Errors surfaced by the facade's fallible operations.
///
/// Emission never surfaces an error, and teardown swallows foreign failures:
/// only initialization and level changes report one of these to callers.
#[derive(Clone, Copy, Debug, PartialEq, Eq, Structural)]
pub enum LoggingError {
    /// Caller-supplied text cannot be converted to the foreign string
    /// convention because it holds an embedded terminator byte.
    StringConversion,
    /// A foreign primitive reported failure; the payload is the nonzero
    /// return code it handed back.
    ForeignFailure(i32),
}

/// Maps a foreign primitive's return code to the facade's result convention:
/// zero means success, any other code is surfaced verbatim as a failure.
pub fn foreign_call_result(ret: i32) -> (r: Result<(), LoggingError>)
    ensures
        r is Ok <==> ret == 0,
        ret != 0 ==> r == Err::<(), LoggingError>(LoggingError::ForeignFailure(ret)),
{
    if ret == 0 {
        Ok(())
    } else {
        Err(LoggingError::ForeignFailure(ret))
    }
}

} // verus!
