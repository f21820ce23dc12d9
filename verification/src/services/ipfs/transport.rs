//! What goes to the node and what comes back, as plain values.

use vstd::prelude::*;
use crate::error::BackendError;
use crate::error::ContextEntry;
use crate::error::Error;
use crate::error::ErrorKind;

verus! {

/// A failure as the transport reports it.
#[derive(Debug)]
pub enum Failure {
    /// The node answered with an error of its own.
    Api { code: u8, message: String },
    /// The call did not get through, or its answer could not be read.
    Client { message: String },
}

/// The words with which the node says that nothing is stored at a path.
pub open spec fn missing_words() -> Seq<char> {
    "file does not exist"@
}

/// The words with which the node says that something is stored at a path already.
pub open spec fn existing_words() -> Seq<char> {
    "file already exists"@
}

impl Failure {
    /// The words of the failure.
    pub open spec fn words(&self) -> Seq<char> {
        match self {
            Failure::Api { message, .. } => message@,
            Failure::Client { message } => message@,
        }
    }

    /// The kind that the failure is normalized into: `NotFound` where the node says that
    /// nothing is stored at the path, `AlreadyExists` where it says that something is,
    /// `Other` for every other failure.
    pub open spec fn kind(&self) -> ErrorKind {
        match self {
            Failure::Api { message, .. } => if message@ == missing_words() {
                ErrorKind::NotFound
            } else if message@ == existing_words() {
                ErrorKind::AlreadyExists
            } else {
                ErrorKind::Other
            },
            Failure::Client { .. } => ErrorKind::Other,
        }
    }
}

/// What `normalize` owes for a failure of `op` on `path`.
pub open spec fn normalized(failure: Failure, op: Seq<char>, path: Seq<char>, e: Error) -> bool {
    &&& e@.kind == failure.kind()
    &&& e@.cause == failure.words()
    &&& e@.context == seq![("op"@, op), ("path"@, path)]
}

/// Normalizes a failure of the transport into the portable taxonomy. The operation and the
/// path go into the context.
pub fn normalize(failure: Failure, op: &str, path: &str) -> (e: Error)
    ensures
        normalized(failure, op@, path@, e),
{
    let mut context = Vec::new();
    context.push(ContextEntry::new("op", op));
    context.push(ContextEntry::new("path", path));
    match failure {
        Failure::Api { code: _, message } => {
            let kind = if *message.as_str() == *"file does not exist" {
                ErrorKind::NotFound
            } else if *message.as_str() == *"file already exists" {
                ErrorKind::AlreadyExists
            } else {
                ErrorKind::Other
            };
            let source = BackendError::new(context, message.as_str());
            assert(source@.context =~= seq![("op"@, op@), ("path"@, path@)]);
            Error::new(kind, source)
        },
        Failure::Client { message } => {
            let source = BackendError::new(context, message.as_str());
            assert(source@.context =~= seq![("op"@, op@), ("path"@, path@)]);
            Error::new(ErrorKind::Other, source)
        },
    }
}

/// A failure of this library's own making, with the operation and the path in its context.
pub fn failure(kind: ErrorKind, cause: &str, op: &str, path: &str) -> (e: Error)
    ensures
        e@.kind == kind,
        e@.cause == cause@,
        e@.context == seq![("op"@, op@), ("path"@, path@)],
{
    let mut context = Vec::new();
    context.push(ContextEntry::new("op", op));
    context.push(ContextEntry::new("path", path));
    let source = BackendError::new(context, cause);
    assert(source@.context =~= seq![("op"@, op@), ("path"@, path@)]);
    Error::new(kind, source)
}

} // verus!

verus! {

/// The call that asks what is stored at `path`.
#[derive(Debug)]
pub struct FilesStat {
    pub path: String,
}

/// The call that writes to the file at `path`.
#[derive(Debug)]
pub struct FilesWrite {
    pub path: String,
    /// Whether the file is made where there is none.
    pub create: bool,
    /// Whether what the file held is dropped.
    pub truncate: bool,
}

/// The call that reads the file at `path`: from `offset`, or from its start; `count` bytes,
/// or to its end.
#[derive(Debug)]
pub struct FilesRead {
    pub path: String,
    pub offset: Option<i64>,
    pub count: Option<i64>,
}

/// The call that removes what is stored at `path`.
#[derive(Debug)]
pub struct FilesRm {
    pub path: String,
    /// Whether what lies below a directory is removed with it.
    pub recursive: bool,
}

/// One entry of a listing, as the node gives it.
#[derive(Debug)]
pub struct FilesEntry {
    pub name: String,
    /// The node's code for what the entry is.
    pub typ: u64,
    pub size: u64,
    pub hash: String,
}

/// The answer to a listing call: the entries of one directory, at one point in time.
#[derive(Debug)]
pub struct FilesLsResponse {
    pub entries: Vec<FilesEntry>,
}

/// The answer to a stat call, as far as it is used.
#[derive(Debug)]
pub struct FilesStatResponse {
    /// The node's word for what the object is.
    pub typ: String,
    pub size: u64,
}

} // verus!
