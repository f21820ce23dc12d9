//! The requests of the operation contract: one type for each operation.

use vstd::prelude::*;

verus! {

/// Asks for an object to be created.
#[derive(Debug)]
pub struct OpCreate {
    path: String,
}

impl OpCreate {
    pub closed spec fn spec_path(&self) -> Seq<char> {
        self.path@
    }

    pub fn new(path: &str) -> (op: Self)
        ensures
            op.spec_path() == path@,
    {
        OpCreate { path: path.to_owned() }
    }

    pub fn path(&self) -> (p: &str)
        ensures
            p@ == self.spec_path(),
    {
        self.path.as_str()
    }
}

/// Asks for an object's bytes: all of them, or those of a range.
#[derive(Debug)]
pub struct OpRead {
    path: String,
    offset: Option<u64>,
    size: Option<u64>,
}

impl OpRead {
    pub closed spec fn spec_path(&self) -> Seq<char> {
        self.path@
    }

    pub closed spec fn spec_offset(&self) -> Option<u64> {
        self.offset
    }

    pub closed spec fn spec_size(&self) -> Option<u64> {
        self.size
    }

    pub fn new(path: &str, offset: Option<u64>, size: Option<u64>) -> (op: Self)
        ensures
            op.spec_path() == path@,
            op.spec_offset() == offset,
            op.spec_size() == size,
    {
        OpRead { path: path.to_owned(), offset, size }
    }

    pub fn path(&self) -> (p: &str)
        ensures
            p@ == self.spec_path(),
    {
        self.path.as_str()
    }

    pub fn offset(&self) -> (o: Option<u64>)
        ensures
            o == self.spec_offset(),
    {
        self.offset
    }

    pub fn size(&self) -> (s: Option<u64>)
        ensures
            s == self.spec_size(),
    {
        self.size
    }
}

/// Asks for a sink to write an object through.
#[derive(Debug)]
pub struct OpWrite {
    path: String,
}

impl OpWrite {
    pub closed spec fn spec_path(&self) -> Seq<char> {
        self.path@
    }

    pub fn new(path: &str) -> (op: Self)
        ensures
            op.spec_path() == path@,
    {
        OpWrite { path: path.to_owned() }
    }

    pub fn path(&self) -> (p: &str)
        ensures
            p@ == self.spec_path(),
    {
        self.path.as_str()
    }
}

/// Asks for an object's metadata.
#[derive(Debug)]
pub struct OpStat {
    path: String,
}

impl OpStat {
    pub closed spec fn spec_path(&self) -> Seq<char> {
        self.path@
    }

    pub fn new(path: &str) -> (op: Self)
        ensures
            op.spec_path() == path@,
    {
        OpStat { path: path.to_owned() }
    }

    pub fn path(&self) -> (p: &str)
        ensures
            p@ == self.spec_path(),
    {
        self.path.as_str()
    }
}

/// Asks for an object to be removed.
#[derive(Debug)]
pub struct OpDelete {
    path: String,
}

impl OpDelete {
    pub closed spec fn spec_path(&self) -> Seq<char> {
        self.path@
    }

    pub fn new(path: &str) -> (op: Self)
        ensures
            op.spec_path() == path@,
    {
        OpDelete { path: path.to_owned() }
    }

    pub fn path(&self) -> (p: &str)
        ensures
            p@ == self.spec_path(),
    {
        self.path.as_str()
    }
}

/// Asks for the entries of a directory.
#[derive(Debug)]
pub struct OpList {
    path: String,
}

impl OpList {
    pub closed spec fn spec_path(&self) -> Seq<char> {
        self.path@
    }

    pub fn new(path: &str) -> (op: Self)
        ensures
            op.spec_path() == path@,
    {
        OpList { path: path.to_owned() }
    }

    pub fn path(&self) -> (p: &str)
        ensures
            p@ == self.spec_path(),
    {
        self.path.as_str()
    }
}

} // verus!
