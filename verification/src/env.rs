//! The capability surface that the engine needs from its surroundings: the [`Env`] interface
//! and the handles it gives out.

use crate::error::{from_io_result, from_lock_result, EnvError};
use crate::sys::{fill_exact, lock_handle, seek_from_start, write_whole};
use std::io::{Read, Seek, Write};
use std::path::Path;
use std::sync::{Arc, Mutex, MutexGuard};
use vstd::prelude::*;

verus! {

/// One open, seekable resource, shared by all clones of the value and read by position.
///
/// The resource sits behind one lock. A positioned read takes the lock, moves the cursor and
/// reads, and lets the lock go only then, so that the reads made through all the clones come
/// one after the other and none sees another's cursor. The resource is released when the last
/// clone is dropped.
#[verifier::reject_recursive_types(F)]
pub struct RandomAccessFile<F> {
    f: Arc<Mutex<F>>,
    made_from: Ghost<F>,
}

impl<F> RandomAccessFile<F> {
    /// The handle that the file was made from, as it was then. Reads move the cursor of the
    /// handle behind the lock; this record of it stays.
    pub closed spec fn made_from(&self) -> F {
        self.made_from@
    }
}

impl<F> Clone for RandomAccessFile<F> {
    /// Another handle to the same resource: the clone shares the lock and what it guards,
    /// nothing is copied.
    fn clone(&self) -> (r: Self)
        ensures
            r == *self,
    {
        RandomAccessFile { f: self.f.clone(), made_from: self.made_from }
    }
}

impl<F: Read + Seek> RandomAccessFile<F> {
    /// Wraps an open handle so that it can be shared and read by position. No call is made on
    /// the handle.
    pub fn new(f: F) -> (r: RandomAccessFile<F>)
        ensures
            r.made_from() == f,
    {
        let ghost handle = f;
        RandomAccessFile { f: Arc::new(Mutex::new(f)), made_from: Ghost(handle) }
    }

    /// Reads exactly `len` bytes, starting `off` bytes into the resource.
    ///
    /// The lock is held from before the seek until after the read. What comes back is never
    /// shorter than asked for: where the resource has fewer than `len` bytes left, or the seek
    /// or the read fails otherwise, the result is [`EnvError::Io`] with the handle's own error.
    /// It is [`EnvError::Poisoned`] where a reader panicked while it held the lock. Which bytes
    /// come back is for the handle to say.
    pub fn read_at(&self, off: usize, len: usize) -> (r: Result<Vec<u8>, EnvError>)
        ensures
            match r {
                Ok(bytes) => bytes@.len() == len,
                Err(e) => e is Io || e is Poisoned,
            },
    {
        let mut f = from_lock_result(lock_handle(&self.f))?;
        Self::read_locked(&mut f, off, len)
    }

    /// The seek and the read of one positioned read, on the handle behind a lock that is held.
    /// A failure here is the handle's own, and so of the I/O kind.
    fn read_locked(f: &mut MutexGuard<'_, F>, off: usize, len: usize) -> (r: Result<
        Vec<u8>,
        EnvError,
    >)
        ensures
            match r {
                Ok(bytes) => bytes@.len() == len,
                Err(e) => e is Io,
            },
    {
        from_io_result(seek_from_start(f, off as u64))?;

        let mut buf: Vec<u8> = Vec::new();
        buf.resize(len, 0);
        match from_io_result(fill_exact(f, &mut buf)) {
            Ok(_) => Ok(buf),
            Err(e) => Err(e),
        }
    }
}

/// A sink for diagnostic lines. It owns the sink and keeps no buffer of its own.
pub struct Logger<W> {
    dst: W,
    offered: Ghost<Seq<Seq<u8>>>,
}

impl<W> Logger<W> {
    /// The sink that the lines go to.
    pub closed spec fn sink(&self) -> W {
        self.dst
    }

    /// What the logger has handed to its sink so far: one entry for each run of bytes, the
    /// oldest first. It tells what the sink was asked to take, not what became of it there.
    pub closed spec fn offered(&self) -> Seq<Seq<u8>> {
        self.offered@
    }
}

impl<W: Write> Logger<W> {
    /// A logger that writes to `w`, and has handed it nothing yet.
    pub fn new(w: W) -> (r: Logger<W>)
        ensures
            r.sink() == w,
            r.offered() == Seq::<Seq<u8>>::empty(),
    {
        Logger { dst: w, offered: Ghost(Seq::empty()) }
    }

    /// Hands `bytes` to the sink, which is asked until it has taken them all or a write fails.
    /// A failure is passed over in silence.
    fn offer(&mut self, bytes: &[u8])
        ensures
            final(self).offered() == old(self).offered().push(bytes@),
    {
        let _ = write_whole(&mut self.dst, bytes);
        proof {
            self.offered@ = self.offered@.push(bytes@);
        }
    }

    /// Writes the bytes of `message` to the sink, as they are, and then one newline.
    ///
    /// Logging is best effort: a write that fails is passed over in silence, and the newline
    /// is attempted whatever became of the message.
    pub fn log(&mut self, message: &String)
        ensures
            final(self).offered() == old(self).offered().push(
                vstd::utf8::encode_utf8(message@),
            ).push(seq![10u8]),
    {
        self.offer(message.as_str().as_bytes());
        self.offer("\n".as_bytes());
        proof {
            reveal_strlit("\n");
            vstd::string::is_ascii_spec_bytes("\n");
            assert(vstd::utf8::encode_utf8("\n"@) =~= seq![10u8]);
        }
    }
}

/// The single seam through which the engine reaches the outside world.
///
/// An `Env` keeps no state of its own: it hands out handles and asks the backend. Disk-backed,
/// in-memory and fault-injecting backends all fit, and engine code is written for any of
/// them. Every call blocks until the backend has answered; none is retried here, and a failure
/// is reported in the result.
///
/// The four handle types are the backend's choice. The engine reads a `SequentialReader`
/// through `std::io::Read`, a `RandomReader` through `Read` and `Seek` (which is what
/// [`RandomAccessFile::read_at`] asks for) and writes a `Writer` through `std::io::Write`
/// (which is what [`Logger::log`] asks for).
pub trait Env {
    /// A forward-only readable handle.
    type SequentialReader;

    /// A readable handle that can be repositioned.
    type RandomReader;

    /// A writable handle.
    type Writer;

    /// The token of an advisory claim on a path: held from [`Env::lock`] to [`Env::unlock`].
    type FileLock;

    /// Opens the file at `path` for reading from its start. Fails where the path does not exist
    /// or cannot be read.
    fn open_sequential_file(&self, path: &Path) -> Result<Self::SequentialReader, EnvError>;

    /// Opens the file at `path` for positioned reads.
    fn open_random_access_file(&self, path: &Path) -> Result<
        RandomAccessFile<Self::RandomReader>,
        EnvError,
    >;

    /// Opens the file at `path` for writing from its start: the file is created, or emptied if
    /// it exists.
    fn open_writable_file(&self, path: &Path) -> Result<Self::Writer, EnvError>;

    /// Opens the file at `path` for writing at its end, and creates it if it is absent.
    fn open_appendable_file(&self, path: &Path) -> Result<Self::Writer, EnvError>;

    /// Whether `path` names an entry that exists now. Absence is an answer, not a failure.
    fn path_exists(&self, path: &Path) -> Result<bool, EnvError>;

    /// The names of the entries directly under the directory at `path`, in no particular
    /// order. Fails where `path` is not a directory.
    fn children(&self, path: &Path) -> Result<Vec<String>, EnvError>;

    /// The length in bytes of the file at `path`.
    fn size_of(&self, path: &Path) -> Result<usize, EnvError>;

    /// Removes the file at `path`. Fails where it does not exist or cannot be removed.
    fn delete(&self, path: &Path) -> Result<(), EnvError>;

    /// Creates the directory at `path`. Fails where it exists already or its parent is missing.
    fn mkdir(&self, path: &Path) -> Result<(), EnvError>;

    /// Removes the directory at `path`, which is taken to be empty.
    fn rmdir(&self, path: &Path) -> Result<(), EnvError>;

    /// Moves the entry at `from` to `to`, in one step as far as the engine can see. An entry
    /// at `to` is replaced where the backend can do so.
    fn rename(&self, from: &Path, to: &Path) -> Result<(), EnvError>;

    /// Claims `path` for the caller alone. While the token is outstanding, any further claim on
    /// the same path fails with [`EnvError::Locked`], whoever makes it. The claim is advisory:
    /// it keeps nobody from writing the file.
    fn lock(&self, path: &Path) -> Result<Self::FileLock, EnvError>;

    /// Gives up a claim. The token is used up; a claim whose token is never handed in stays.
    fn unlock(&self, l: Self::FileLock);

    /// A logger that writes to the file at `path`, created or emptied as for
    /// [`Env::open_writable_file`].
    fn new_logger(&self, path: &Path) -> Result<Logger<Self::Writer>, EnvError>;

    /// Microseconds since some fixed moment. The count never goes back; it serves to measure
    /// intervals.
    fn micros(&self) -> u64;

    /// Blocks the calling thread for at least `micros` microseconds.
    fn sleep_for(&self, micros: u32);
}

} // verus!
