//! What is known of a stored object.

use vstd::prelude::*;
use std::sync::Arc;
use crate::services::ipfs::backend::Backend;

verus! {

/// Whether an object is a file or a directory.
#[derive(Clone, Copy, Debug, PartialEq, Eq, Structural)]
pub enum ObjectMode {
    /// A file.
    FILE,
    /// A directory.
    DIR,
    /// Neither is known.
    Unknown,
}

/// The metadata of an object. It does not change once it is made.
#[derive(Clone, Copy, Debug, PartialEq, Eq, Structural)]
pub struct ObjectMetadata {
    mode: ObjectMode,
    content_length: u64,
}

impl ObjectMetadata {
    pub closed spec fn spec_mode(&self) -> ObjectMode {
        self.mode
    }

    pub closed spec fn spec_content_length(&self) -> u64 {
        self.content_length
    }

    pub fn new(mode: ObjectMode, content_length: u64) -> (m: Self)
        ensures
            m.mode() == mode,
            m.content_length() == content_length,
    {
        ObjectMetadata { mode, content_length }
    }

    #[verifier::when_used_as_spec(spec_mode)]
    pub fn mode(&self) -> (m: ObjectMode)
        ensures
            m == self.mode(),
    {
        self.mode
    }

    #[verifier::when_used_as_spec(spec_content_length)]
    pub fn content_length(&self) -> (n: u64)
        ensures
            n == self.content_length(),
    {
        self.content_length
    }
}

impl Default for ObjectMetadata {
    fn default() -> (m: Self)
        ensures
            m.mode() == ObjectMode::Unknown,
            m.content_length() == 0,
    {
        ObjectMetadata { mode: ObjectMode::Unknown, content_length: 0 }
    }
}

} // verus!

verus! {

/// One entry of a directory. It knows the backend that listed it, so that the entry can be
/// asked about later; it cannot change that backend.
#[derive(Debug)]
pub struct DirEntry {
    backend: Arc<Backend>,
    mode: ObjectMode,
    name: String,
}

impl DirEntry {
    /// The backend that listed the entry.
    pub closed spec fn backend_view(&self) -> Backend {
        *self.backend
    }

    pub closed spec fn spec_mode(&self) -> ObjectMode {
        self.mode
    }

    /// The name of the entry, as the backend gave it.
    pub closed spec fn name_view(&self) -> Seq<char> {
        self.name@
    }

    pub fn new(backend: Arc<Backend>, mode: ObjectMode, name: &str) -> (e: Self)
        ensures
            e.backend_view() == *backend,
            e.mode() == mode,
            e.name_view() == name@,
    {
        DirEntry { backend, mode, name: name.to_owned() }
    }

    /// The backend that listed the entry.
    pub fn backend(&self) -> (b: &Arc<Backend>)
        ensures
            **b == self.backend_view(),
    {
        &self.backend
    }

    #[verifier::when_used_as_spec(spec_mode)]
    pub fn mode(&self) -> (m: ObjectMode)
        ensures
            m == self.mode(),
    {
        self.mode
    }

    pub fn name(&self) -> (n: &str)
        ensures
            n@ == self.name_view(),
    {
        self.name.as_str()
    }
}

} // verus!
