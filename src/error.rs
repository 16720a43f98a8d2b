use vstd::prelude::*;

verus! {

/// Status code of a protocol-engine call that succeeded.
pub const FIDO_OK: i32 = 0;

/// Status code the engine gives for a signature that does not verify.
pub const FIDO_ERR_INVALID_SIG: i32 = -6;

/// Status code the engine gives for an argument it rejects.
pub const FIDO_ERR_INVALID_ARGUMENT: i32 = -7;

/// A recoverable failure, carrying the engine's status code.
#[derive(Clone, Copy, Debug, PartialEq, Eq, Structural)]
pub struct FidoError(pub i32);

impl FidoError {
    /// The engine's status code.
    pub fn code(&self) -> (r: i32)
        ensures
            r == self.0,
    {
        self.0
    }

    /// Whether this is a signature that did not verify.
    pub fn is_invalid_signature(&self) -> (r: bool)
        ensures
            r == (self.0 == FIDO_ERR_INVALID_SIG),
    {
        self.0 == FIDO_ERR_INVALID_SIG
    }
}

/// A broken invariant of the native layer: not recoverable, the caller aborts.
#[derive(Clone, Copy, Debug, PartialEq, Eq, Structural)]
pub enum InvariantViolation {
    /// A device reported capability bits that are not known.
    UnknownCapabilityBits,
    /// A native handle was not null after it was released.
    NotReleased,
}

/// What a status code means for the caller.
pub open spec fn status_result(code: i32) -> Result<(), FidoError> {
    if code == FIDO_OK {
        Ok(())
    } else {
        Err(FidoError(code))
    }
}

/// Maps an engine status code to a result: success, or the code as the error.
pub fn check_status(code: i32) -> (r: Result<(), FidoError>)
    ensures
        r == status_result(code),
{
    if code == FIDO_OK {
        Ok(())
    } else {
        Err(FidoError(code))
    }
}

} // verus!
