//! Configuration of the backend: the root is validated before any backend exists.

use vstd::prelude::*;
use vstd::string::StrSliceExecFns;
use vstd::string::StringExecFns;
use std::sync::Arc;
use crate::error::BackendError;
use crate::error::ContextEntry;
use crate::error::Error;
use crate::error::ErrorKind;
use crate::path::is_root;
use crate::path::validate_root;
use crate::services::ipfs::backend::Backend;

verus! {

/// Collects the configuration of a backend.
#[derive(Debug)]
pub struct Builder {
    root: Option<String>,
}

/// What `Builder::root_string` owes for a configured value.
pub open spec fn root_outcome(configured: Option<Seq<char>>, r: Result<String, Error>) -> bool {
    match validate_root(configured) {
        Ok(root) => r matches Ok(s) && s@ == root,
        Err(refused) => r matches Err(e) && e@.kind == ErrorKind::InvalidConfig && e@.cause
            == "root must start with /"@ && e@.context == seq![("root"@, refused)],
    }
}

impl Default for Builder {
    fn default() -> (b: Self)
        ensures
            b.configured() is None,
    {
        Builder { root: None }
    }
}

impl Builder {
    /// The root as it was configured, if any was.
    pub closed spec fn configured(&self) -> Option<Seq<char>> {
        match self.root {
            Some(v) => Some(v@),
            None => None,
        }
    }

    /// Set root for backend. The empty string takes the configured root away.
    pub fn root(&mut self, root: &str) -> (b: &mut Self)
        ensures
            b.configured() == (if root@.len() == 0 {
                None
            } else {
                Some(root@)
            }),
            *final(self) == *final(b),
    {
        self.root = if root.is_empty() {
            None
        } else {
            Some(root.to_owned())
        };
        self
    }

    /// The validated root: `/` where none is configured, an error where the configured one does
    /// not start with `/`, else the configured one with `/` at its end.
    pub fn root_string(&self) -> (r: Result<String, Error>)
        ensures
            root_outcome(self.configured(), r),
    {
        proof {
            reveal_strlit("/");
            assert("/"@ =~= seq!['/']);
        }
        match &self.root {
            None => Ok(String::from_str("/")),
            Some(v) => {
                if v.as_str().is_empty() {
                    return Ok(String::from_str("/"));
                }
                let mut v = v.clone();
                if v.as_str().get_char(0) != '/' {
                    let mut context = Vec::new();
                    context.push(ContextEntry::new("root", v.as_str()));
                    let source = BackendError::new(context, "root must start with /");
                    assert(source@.context =~= seq![("root"@, v@)]);
                    return Err(Error::new(ErrorKind::InvalidConfig, source));
                }
                let len = v.as_str().unicode_len();
                if v.as_str().get_char(len - 1) != '/' {
                    let ghost without = v@;
                    v.append("/");
                    assert(v@ =~= without.push('/'));
                }
                Ok(v)
            },
        }
    }

    /// Validates the root and, only where that succeeds, makes the backend.
    pub fn finish(&mut self) -> (r: Result<Arc<Backend>, Error>)
        ensures
            *final(self) == *old(self),
            match validate_root(old(self).configured()) {
                Ok(root) => r matches Ok(b) && b.root_view() == root,
                Err(refused) => r matches Err(e) && e@.kind == ErrorKind::InvalidConfig && e@.cause
                    == "root must start with /"@ && e@.context == seq![("root"@, refused)],
            },
    {
        match self.root_string() {
            Ok(root) => Ok(Arc::new(Backend::new(root))),
            Err(e) => Err(e),
        }
    }
}

/// A configured root that does not start with `/` makes the configuration fail with
/// `InvalidConfig`, and the failure carries the root. The empty root is no such root: it
/// stands for the default.
pub proof fn lemma_root_without_leading_slash_fails(r: Seq<char>, res: Result<String, Error>)
    requires
        r.len() > 0,
        r[0] != '/',
        root_outcome(Some(r), res),
    ensures
        res matches Err(e) && e@.kind == ErrorKind::InvalidConfig && e@.context == seq![
            ("root"@, r),
        ],
{
}

/// A configured root that starts with `/` and does not end with `/` is validated to itself
/// with one `/` at its end.
pub proof fn lemma_root_without_trailing_slash_gets_one(r: Seq<char>, res: Result<String, Error>)
    requires
        r.len() > 0,
        r[0] == '/',
        r.last() != '/',
        root_outcome(Some(r), res),
    ensures
        res matches Ok(s) && s@ == r + seq!['/'],
{
    assert(r.push('/') =~= r + seq!['/']);
}

/// Every root that the configuration lets through starts and ends with `/`.
pub proof fn lemma_validated_root_is_anchored(configured: Option<Seq<char>>, res: Result<String, Error>)
    requires
        root_outcome(configured, res),
    ensures
        res matches Ok(s) ==> is_root(s@),
{
}

} // verus!
