//! The failure type shared by every fallible operation of the layer.

use vstd::prelude::*;

verus! {

/// Why an operation failed.
#[derive(Debug)]
pub enum EnvError {
    /// The underlying read, write, seek, metadata, rename or lock operation failed. The cause
    /// is kept as it came.
    Io(std::io::Error),
    /// An exclusive-access primitive cannot be used, because a holder terminated abnormally
    /// while holding it.
    Poisoned,
    /// The path is claimed already by a lock token that is still outstanding.
    Locked,
}

/// Carries the outcome of an I/O operation over into this layer's failure type: a success
/// stays as it is, a failure becomes [`EnvError::Io`] around the same cause.
pub fn from_io_result<T>(res: Result<T, std::io::Error>) -> (r: Result<T, EnvError>)
    ensures
        r == match res {
            Ok(v) => Ok::<T, EnvError>(v),
            Err(cause) => Err(EnvError::Io(cause)),
        },
{
    match res {
        Ok(v) => Ok(v),
        Err(cause) => Err(EnvError::Io(cause)),
    }
}

/// Carries the outcome of taking a lock over into this layer's failure type: a success stays
/// as it is, a poisoned lock becomes [`EnvError::Poisoned`]. What the poison error guarded is
/// let go.
pub fn from_lock_result<T>(res: Result<T, std::sync::PoisonError<T>>) -> (r: Result<T, EnvError>)
    ensures
        r == match res {
            Ok(v) => Ok::<T, EnvError>(v),
            Err(_) => Err(EnvError::Poisoned),
        },
{
    match res {
        Ok(v) => Ok(v),
        Err(_) => Err(EnvError::Poisoned),
    }
}

} // verus!
