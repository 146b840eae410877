//! What this layer takes from `std` on trust.
//!
//! Verus knows nothing of `std::io` and `std::sync::Mutex`. The types are declared here as
//! opaque, and each call that the layer makes into them goes through one function of this
//! file, whose contract is believed and not proved. None of them promises more than holds of
//! every handle: what a handle reads or writes is its own affair.

use std::io::{Read, Seek, SeekFrom, Write};
use vstd::prelude::*;

verus! {

/// `std::io::Error`, opaque: it is carried as the cause of a failure and never looked into.
#[verifier::external_type_specification]
#[verifier::external_body]
pub struct ExIoError(std::io::Error);

/// `std::sync::PoisonError`, opaque: what a poisoned lock answers with.
#[verifier::external_type_specification]
#[verifier::external_body]
#[verifier::reject_recursive_types(T)]
pub struct ExPoisonError<T>(std::sync::PoisonError<T>);

/// `std::sync::Mutex`, opaque: nothing is known of what it guards.
#[verifier::external_type_specification]
#[verifier::external_body]
#[verifier::reject_recursive_types(T)]
pub struct ExMutex<T: ?Sized>(std::sync::Mutex<T>);

/// `std::sync::MutexGuard`, opaque: exclusive access to what the mutex guards, until dropped.
#[verifier::external_type_specification]
#[verifier::external_body]
#[verifier::reject_recursive_types(T)]
pub struct ExMutexGuard<'a, T: ?Sized + 'a>(std::sync::MutexGuard<'a, T>);

/// `std::path::Path`, opaque: a path is handed on to the backend as it is.
#[verifier::external_type_specification]
#[verifier::external_body]
pub struct ExPath(std::path::Path);

/// `std::path::PathBuf`, opaque: the owned form that `Path` names, declared for `Path`'s sake.
#[verifier::external_type_specification]
#[verifier::external_body]
pub struct ExPathBuf(std::path::PathBuf);

/// `std::sync::Mutex::new`: a mutex around `t`. Nothing is claimed of it.
pub assume_specification<T>[ std::sync::Mutex::<T>::new ](t: T) -> (m: std::sync::Mutex<T>);

/// `std::sync::Mutex::lock`: blocks until the mutex is free and hands out its guard, or the
/// poison error if a holder panicked. Nothing is claimed of the outcome. `std` leaves open
/// what happens when the calling thread already holds the mutex (a panic or a deadlock); this
/// layer holds a guard only for the length of one read and never asks for a second one.
#[verifier::external_body]
pub(crate) fn lock_handle<'a, F>(m: &'a std::sync::Mutex<F>) -> (r: Result<
    std::sync::MutexGuard<'a, F>,
    std::sync::PoisonError<std::sync::MutexGuard<'a, F>>,
>) {
    m.lock()
}

/// `std::io::Seek::seek` with `SeekFrom::Start(off)`, on the handle behind the guard. Nothing is
/// claimed of the outcome.
#[verifier::external_body]
pub(crate) fn seek_from_start<F: Seek>(f: &mut std::sync::MutexGuard<'_, F>, off: u64) -> (r:
    Result<u64, std::io::Error>) {
    f.seek(SeekFrom::Start(off))
}

/// `std::io::Read::read_exact` into the whole of `buf`, on the handle behind the guard. The
/// call gets `buf` as a slice, so the length stays; nothing else is claimed, neither of the
/// outcome nor of the bytes.
#[verifier::external_body]
pub(crate) fn fill_exact<F: Read>(f: &mut std::sync::MutexGuard<'_, F>, buf: &mut Vec<u8>) -> (r:
    Result<(), std::io::Error>)
    ensures
        final(buf)@.len() == old(buf)@.len(),
{
    f.read_exact(buf)
}

/// `std::io::Write::write_all` of `bytes` to `dst`: the sink is asked again for what it has not
/// taken yet, until it has taken all of `bytes` or a write fails. Nothing is claimed of the
/// outcome.
#[verifier::external_body]
pub(crate) fn write_whole<W: Write>(dst: &mut W, bytes: &[u8]) -> (r: Result<(), std::io::Error>) {
    dst.write_all(bytes)
}

} // verus!
