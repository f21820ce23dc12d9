//! A unified storage-access layer: one set of operations over many backends.
//!
//! The library decides; it performs no I/O. A backend resolves paths against its validated
//! root, says which call is to be made on its transport, and says what the answer means.
//! Where an operation goes on over several polls (a write through its sink, a listing through
//! its stream) it is a state machine that asks for the call and is told what came of it.

pub mod error;
pub mod object;
pub mod ops;
pub mod path;
pub mod poll;
pub mod scheme;
pub mod services;
pub mod text;

pub use error::Error;
pub use error::ErrorKind;
pub use object::DirEntry;
pub use object::ObjectMetadata;
pub use object::ObjectMode;
pub use scheme::Scheme;
