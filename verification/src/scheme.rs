//! The backends that can be chosen at configuration time.

use vstd::prelude::*;
use vstd::string::StringExecFns;
use std::str::FromStr;
use crate::error::other;
use crate::error::BackendError;
use crate::error::Error;
use crate::error::ErrorKind;
use crate::text::lowercase;
use crate::text::to_lowercase;

verus! {

/// Backends that OpenDAL supports
#[derive(Copy, Clone, Debug, PartialEq, Eq, Structural)]
pub enum Scheme {
    /// Azure Storage Blob services.
    Azblob,
    /// POSIX alike file system.
    Fs,
    /// Hadoop Distributed File System.
    Hdfs,
    /// In memory backend support.
    Memory,
    /// AWS S3 alike services.
    S3,
}

/// The scheme that a name in lower case stands for, if it stands for any.
pub open spec fn scheme_named(name: Seq<char>) -> Option<Scheme> {
    if name == "azblob"@ {
        Some(Scheme::Azblob)
    } else if name == "fs"@ {
        Some(Scheme::Fs)
    } else if name == "hdfs"@ {
        Some(Scheme::Hdfs)
    } else if name == "memory"@ {
        Some(Scheme::Memory)
    } else if name == "s3"@ {
        Some(Scheme::S3)
    } else {
        None
    }
}

/// What is owed for a name in lower case: its scheme, or a failure that quotes the name.
pub open spec fn scheme_outcome(name: Seq<char>, r: Result<Scheme, Error>) -> bool {
    match scheme_named(name) {
        Some(scheme) => r matches Ok(s) && s == scheme,
        None => r matches Err(e) && e@.kind == ErrorKind::Other && e@.cause == name
            + " is not supported"@ && e@.context.len() == 0,
    }
}

impl Default for Scheme {
    fn default() -> (s: Self)
        ensures
            s == Scheme::Memory,
    {
        Self::Memory
    }
}

impl Scheme {
    /// The scheme that `name` stands for. The name is taken as it is: upper case is not folded.
    pub fn from_lowercase(name: &str) -> (r: Result<Scheme, Error>)
        ensures
            scheme_outcome(name@, r),
    {
        if *name == *"azblob" {
            Ok(Scheme::Azblob)
        } else if *name == *"fs" {
            Ok(Scheme::Fs)
        } else if *name == *"hdfs" {
            Ok(Scheme::Hdfs)
        } else if *name == *"memory" {
            Ok(Scheme::Memory)
        } else if *name == *"s3" {
            Ok(Scheme::S3)
        } else {
            let mut cause = name.to_owned();
            cause.append(" is not supported");
            let source = BackendError::new(Vec::new(), cause.as_str());
            Err(other(source))
        }
    }

    /// The scheme that `s` stands for, whatever the case of its letters.
    pub fn from_str(s: &str) -> (r: Result<Scheme, Error>)
        ensures
            scheme_outcome(lowercase(s@), r),
    {
        let name = to_lowercase(s);
        Scheme::from_lowercase(name.as_str())
    }
}

impl FromStr for Scheme {
    type Err = Error;

    fn from_str(s: &str) -> (r: Result<Self, Error>)
        ensures
            scheme_outcome(lowercase(s@), r),
    {
        Scheme::from_str(s)
    }
}

} // verus!
