//! A platform-abstraction layer for a key-value storage engine.
//!
//! The engine reaches files, directories, advisory locks, the clock and its diagnostic log
//! through the [`env::Env`] capability interface and the handles that it gives out, and never
//! through a concrete operating system. This crate holds the interface, the two handles that
//! have behaviour of their own ([`env::RandomAccessFile`] and [`env::Logger`]) and the failure
//! type that every operation shares ([`error::EnvError`]). Backends are written against it
//! elsewhere.

pub mod env;
pub mod error;
pub mod sys;
