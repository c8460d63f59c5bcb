//! What a device operation can fail with.
use vstd::prelude::*;

verus! {

/// Errors of a device operation, over the transport's own error type.
#[derive(Clone, Debug)]
pub enum Mcp4xxxError<E> {
    /// The control register, read back after a write, does not hold what was
    /// written.
    Config,
    /// The transport failed; its error is passed on as it came.
    I2c(E),
}

/// What an operation makes of the transport's answer to a transfer: success
/// is passed on, and so is the error, marked as the transport's.
pub open spec fn passed_on<T, E>(answer: Result<T, E>) -> Result<T, Mcp4xxxError<E>> {
    match answer {
        Ok(value) => Ok(value),
        Err(e) => Err(Mcp4xxxError::I2c(e)),
    }
}

impl<E> Mcp4xxxError<E> {
    /// Whether the transport failed.
    pub fn is_transport(&self) -> (yes: bool)
        ensures
            yes == (self is I2c),
    {
        match self {
            Mcp4xxxError::I2c(_) => true,
            Mcp4xxxError::Config => false,
        }
    }

    /// Whether the control register did not read back as written.
    pub fn is_config(&self) -> (yes: bool)
        ensures
            yes == (self is Config),
    {
        match self {
            Mcp4xxxError::Config => true,
            Mcp4xxxError::I2c(_) => false,
        }
    }

    /// Passes the transport's answer to a transfer on to the caller of an
    /// operation.
    pub fn pass_on<T>(answer: Result<T, E>) -> (result: Result<T, Mcp4xxxError<E>>)
        ensures
            result == passed_on(answer),
    {
        match answer {
            Ok(value) => Ok(value),
            Err(e) => Err(Mcp4xxxError::I2c(e)),
        }
    }
}

} // verus!
