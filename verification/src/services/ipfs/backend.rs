//! The backend: a validated root, and the operations resolved against it.

use vstd::prelude::*;
use vstd::string::StringExecFns;
use std::sync::Arc;
use crate::services::ipfs::channel::channel;
use crate::error::Error;
use crate::error::ErrorKind;
use crate::object::ObjectMetadata;
use crate::object::ObjectMode;
use crate::ops::OpCreate;
use crate::ops::OpDelete;
use crate::ops::OpList;
use crate::ops::OpRead;
use crate::ops::OpStat;
use crate::ops::OpWrite;
use crate::path::is_dir;
use crate::path::is_dir_path;
use crate::path::is_root;
use crate::path::drop_parents;
use crate::path::lemma_resolve_anchored;
use crate::path::lemma_resolve_stays_below;
use crate::path::parent_at;
use crate::path::resolve;
use crate::services::ipfs::builder::Builder;
use crate::services::ipfs::dir_stream::DirStream;
use crate::services::ipfs::request_writer::IpfsWriterFuture;
use crate::services::ipfs::request_writer::RequestWriter;
use crate::services::ipfs::transport::failure;
use crate::services::ipfs::transport::normalize;
use crate::services::ipfs::transport::normalized;
use crate::services::ipfs::transport::FilesRead;
use crate::services::ipfs::transport::FilesRm;
use crate::services::ipfs::transport::FilesStat;
use crate::services::ipfs::transport::FilesWrite;
use crate::services::ipfs::transport::Failure;
use crate::services::ipfs::transport::FilesStatResponse;
use crate::text::trim_start_matches;

verus! {

/// Backend for IPFS service
#[derive(Debug)]
pub struct Backend {
    root: String,
}

impl Clone for Backend {
    fn clone(&self) -> (b: Self)
        ensures
            b.root_view() == self.root_view(),
    {
        proof {
            use_type_invariant(self);
        }
        Backend { root: self.root.clone() }
    }
}

/// `Arc::clone`: one more handle on the same value.
#[verifier::external_body]
pub(crate) fn share(backend: &Arc<Backend>) -> (r: Arc<Backend>)
    ensures
        *r == **backend,
{
    Arc::clone(backend)
}

/// What a backend is and can do.
#[derive(Debug)]
pub struct AccessorMetadata {
    root: String,
    list: bool,
}

impl AccessorMetadata {
    pub closed spec fn root_view(&self) -> Seq<char> {
        self.root@
    }

    pub closed spec fn spec_can_list(&self) -> bool {
        self.list
    }

    /// The root of the backend.
    pub fn root(&self) -> (r: &str)
        ensures
            r@ == self.root_view(),
    {
        self.root.as_str()
    }

    /// Whether the backend lists directories.
    #[verifier::when_used_as_spec(spec_can_list)]
    pub fn can_list(&self) -> (b: bool)
        ensures
            b == self.can_list(),
    {
        self.list
    }
}

/// The mode that the node's word for an object stands for. A word that is not known is no
/// error.
pub open spec fn mode_named(typ: Seq<char>) -> ObjectMode {
    if typ == "file"@ {
        ObjectMode::FILE
    } else if typ == "directory"@ {
        ObjectMode::DIR
    } else {
        ObjectMode::Unknown
    }
}

/// A bound of a range as the node takes it: the same number, or none where it is beyond the
/// node's numbers.
pub open spec fn node_bound(bound: Option<u64>) -> Option<i64> {
    match bound {
        Some(n) => if n <= i64::MAX {
            Some(n as i64)
        } else {
            None
        },
        None => None,
    }
}

/// A bound of a range as the node takes it.
pub fn to_node_bound(bound: Option<u64>) -> (r: Option<i64>)
    ensures
        r == node_bound(bound),
{
    match bound {
        Some(n) => if n <= 0x7fff_ffff_ffff_ffff {
            Some(n as i64)
        } else {
            None
        },
        None => None,
    }
}

impl Backend {
    #[verifier::type_invariant]
    spec fn anchored(self) -> bool {
        is_root(self.root@)
    }

    /// The root under which every path of this backend is resolved.
    pub closed spec fn root_view(&self) -> Seq<char> {
        self.root@
    }

    /// A backend on `root`, which is anchored.
    pub fn new(root: String) -> (b: Self)
        requires
            is_root(root@),
        ensures
            b.root_view() == root@,
    {
        Self { root }
    }

    /// The root, which is anchored: it starts and ends with `/`.
    pub fn root(&self) -> (r: &str)
        ensures
            r@ == self.root_view(),
            is_root(r@),
    {
        proof {
            use_type_invariant(self);
        }
        self.root.as_str()
    }

    /// Create a default builder for ipfs.
    pub fn build() -> (b: Builder)
        ensures
            b.configured() is None,
    {
        Builder::default()
    }

    /// The absolute path that `path` stands for under the root. It starts with the root, and
    /// below the root it holds no `..` segment: such segments of `path` are taken out.
    pub fn get_abs_path(&self, path: &str) -> (abs: String)
        ensures
            abs@ == resolve(self.root_view(), path@),
            self.root_view().is_prefix_of(abs@),
            forall|i: int| i >= self.root_view().len() ==> !parent_at(abs@, i),
    {
        proof {
            use_type_invariant(self);
            lemma_resolve_anchored(self.root_view(), path@);
            lemma_resolve_stays_below(self.root_view(), path@);
        }
        if *path == *self.root.as_str() {
            return path.to_owned();
        }
        let mut abs = self.root.clone();
        let below = drop_parents(trim_start_matches(path, self.root.as_str()));
        abs.append(below.as_str());
        abs
    }

    /// What the answer of the node to a stat call means: the metadata of the object, or the
    /// failure in the portable taxonomy, `NotFound` where nothing is stored at the path.
    pub fn files_stat(&self, path: &str, reply: Result<FilesStatResponse, Failure>) -> (r: Result<
        ObjectMetadata,
        Error,
    >)
        ensures
            match reply {
                Ok(res) => r matches Ok(meta) && meta.mode() == mode_named(res.typ@)
                    && meta.content_length() == res.size,
                Err(f) => r matches Err(e) && normalized(f, "stat"@, path@, e),
            },
    {
        match reply {
            Ok(res) => {
                let mode = if *res.typ.as_str() == *"file" {
                    ObjectMode::FILE
                } else if *res.typ.as_str() == *"directory" {
                    ObjectMode::DIR
                } else {
                    ObjectMode::Unknown
                };
                Ok(ObjectMetadata::new(mode, res.size))
            },
            Err(f) => Err(normalize(f, "stat", path)),
        }
    }

    /// What the answer of the node to the call of a create means. That the object was there
    /// already is no failure: the create has what it wanted.
    pub fn files_create(&self, path: &str, reply: Result<(), Failure>) -> (r: Result<(), Error>)
        ensures
            match reply {
                Ok(()) => r is Ok,
                Err(f) => if f.kind() == ErrorKind::AlreadyExists {
                    r is Ok
                } else {
                    r matches Err(e) && normalized(f, "create"@, path@, e)
                },
            },
    {
        match reply {
            Ok(()) => Ok(()),
            Err(f) => {
                let e = normalize(f, "create", path);
                match e.kind() {
                    ErrorKind::AlreadyExists => Ok(()),
                    _ => Err(e),
                }
            },
        }
    }

    /// The call that reads `path`, which is absolute.
    pub fn files_read(&self, path: &str, offset: Option<i64>, count: Option<i64>) -> (c: FilesRead)
        ensures
            c.path@ == path@,
            c.offset == offset,
            c.count == count,
    {
        FilesRead { path: path.to_owned(), offset, count }
    }

    /// What a failure of the node while a file is read means: the failure in the portable
    /// taxonomy, `NotFound` where nothing is stored at the path.
    pub fn files_read_failed(&self, path: &str, failure: Failure) -> (e: Error)
        ensures
            normalized(failure, "read"@, path@, e),
    {
        normalize(failure, "read", path)
    }

    /// What the answer of the node to the call of a delete means. That nothing was stored at
    /// the path is no failure: the delete has what it wanted.
    pub fn files_delete(&self, path: &str, reply: Result<(), Failure>) -> (r: Result<(), Error>)
        ensures
            match reply {
                Ok(()) => r is Ok,
                Err(f) => if f.kind() == ErrorKind::NotFound {
                    r is Ok
                } else {
                    r matches Err(e) && normalized(f, "delete"@, path@, e)
                },
            },
    {
        match reply {
            Ok(()) => Ok(()),
            Err(f) => {
                let e = normalize(f, "delete", path);
                match e.kind() {
                    ErrorKind::NotFound => Ok(()),
                    _ => Err(e),
                }
            },
        }
    }

    /// What this backend is and can do. No call is made for it.
    pub fn metadata(&self) -> (m: AccessorMetadata)
        ensures
            m.root_view() == self.root_view(),
            m.can_list(),
    {
        AccessorMetadata { root: self.root.clone(), list: true }
    }

    /// The call that creates the object at the path of `args`. It makes the file where there
    /// is none, and leaves an existing file as it is.
    pub fn create(&self, args: &OpCreate) -> (c: FilesWrite)
        ensures
            c.path@ == resolve(self.root_view(), args.spec_path()),
            c.create,
            !c.truncate,
    {
        FilesWrite { path: self.get_abs_path(args.path()), create: true, truncate: false }
    }

    /// The call that reads the object at the path of `args`, or the failure `IsADirectory`
    /// where the path names a directory.
    pub fn read(&self, args: &OpRead) -> (r: Result<FilesRead, Error>)
        ensures
            is_dir_path(args.spec_path()) ==> (r matches Err(e) && e@.kind
                == ErrorKind::IsADirectory && e@.cause == "Is a directory"@ && e@.context == seq![
                ("op"@, "read"@),
                ("path"@, args.spec_path()),
            ]),
            !is_dir_path(args.spec_path()) ==> (r matches Ok(c) && c.path@ == resolve(
                self.root_view(),
                args.spec_path(),
            ) && c.offset == node_bound(args.spec_offset()) && c.count == node_bound(
                args.spec_size(),
            )),
    {
        if is_dir(args.path()) {
            return Err(failure(ErrorKind::IsADirectory, "Is a directory", "read", args.path()));
        }
        let path = self.get_abs_path(args.path());
        let offset = to_node_bound(args.offset());
        let size = to_node_bound(args.size());
        Ok(self.files_read(path.as_str(), offset, size))
    }

    /// The sink that writes the object at the path of `args`, or the failure `IsADirectory`
    /// where the path names a directory. The sink and its upload are joined by a channel
    /// without a buffer.
    pub fn write(&self, args: &OpWrite) -> (r: Result<RequestWriter, Error>)
        ensures
            is_dir_path(args.spec_path()) ==> (r matches Err(e) && e@.kind
                == ErrorKind::IsADirectory && e@.cause == "Is a directory"@ && e@.context == seq![
                ("op"@, "write"@),
                ("path"@, args.spec_path()),
            ]),
            !is_dir_path(args.spec_path()) ==> (r matches Ok(w) && w.future().path() == resolve(
                self.root_view(),
                args.spec_path(),
            ) && w.future().backend().root_view() == self.root_view()
                && !w.future().is_sending() && w.future().buffer() == Some(0usize)),
    {
        if is_dir(args.path()) {
            return Err(failure(ErrorKind::IsADirectory, "Is a directory", "write", args.path()));
        }
        let path = self.get_abs_path(args.path());
        let (tx, rx) = channel(0);
        let req_fut = IpfsWriterFuture::new(rx, Arc::new(self.clone()), path);
        let req_writer = RequestWriter::new(tx, req_fut);
        Ok(req_writer)
    }

    /// The call that asks for the metadata of the object at the path of `args`.
    pub fn stat(&self, args: &OpStat) -> (c: FilesStat)
        ensures
            c.path@ == resolve(self.root_view(), args.spec_path()),
    {
        FilesStat { path: self.get_abs_path(args.path()) }
    }

    /// The call that removes the object at the path of `args`, and nothing below it.
    pub fn delete(&self, args: &OpDelete) -> (c: FilesRm)
        ensures
            c.path@ == resolve(self.root_view(), args.spec_path()),
            !c.recursive,
    {
        FilesRm { path: self.get_abs_path(args.path()), recursive: false }
    }

    /// The stream of the entries of the directory at the path of `args`, or the failure
    /// `NotADirectory` where the path names a file.
    pub fn list(&self, args: &OpList) -> (r: Result<DirStream, Error>)
        ensures
            !is_dir_path(args.spec_path()) ==> (r matches Err(e) && e@.kind
                == ErrorKind::NotADirectory && e@.cause == "Not a directory"@ && e@.context
                == seq![("op"@, "list"@), ("path"@, args.spec_path())]),
            is_dir_path(args.spec_path()) ==> (r matches Ok(s) && s.path() == resolve(
                self.root_view(),
                args.spec_path(),
            ) && s.backend().root_view() == self.root_view() && s.progress() is Idle),
    {
        if !is_dir(args.path()) {
            return Err(failure(ErrorKind::NotADirectory, "Not a directory", "list", args.path()));
        }
        let path = self.get_abs_path(args.path());
        Ok(DirStream::new(Arc::new(self.clone()), path.as_str()))
    }
}

} // verus!
