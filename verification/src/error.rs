//! The portable error taxonomy that every backend failure is normalized into.

use vstd::prelude::*;
use vstd::string::StringExecFns;

verus! {

/// The kinds a caller may branch on.
#[derive(Clone, Copy, Debug, PartialEq, Eq, Structural)]
pub enum ErrorKind {
    /// The target does not exist.
    NotFound,
    /// The target exists already.
    AlreadyExists,
    /// A read or write addressed a directory.
    IsADirectory,
    /// A listing addressed a file.
    NotADirectory,
    /// The configuration failed validation.
    InvalidConfig,
    /// A streaming write was abandoned before completion.
    Incomplete,
    /// A backend failure with no more specific kind.
    Other,
}

/// The words that stand for a kind in a message.
pub open spec fn kind_label(kind: ErrorKind) -> Seq<char> {
    match kind {
        ErrorKind::NotFound => "not found"@,
        ErrorKind::AlreadyExists => "already exists"@,
        ErrorKind::IsADirectory => "is a directory"@,
        ErrorKind::NotADirectory => "not a directory"@,
        ErrorKind::InvalidConfig => "invalid config"@,
        ErrorKind::Incomplete => "incomplete"@,
        ErrorKind::Other => "other"@,
    }
}

impl ErrorKind {
    /// The words that stand for this kind in a message.
    pub fn label(self) -> (r: &'static str)
        ensures
            r@ == kind_label(self),
    {
        match self {
            ErrorKind::NotFound => "not found",
            ErrorKind::AlreadyExists => "already exists",
            ErrorKind::IsADirectory => "is a directory",
            ErrorKind::NotADirectory => "not a directory",
            ErrorKind::InvalidConfig => "invalid config",
            ErrorKind::Incomplete => "incomplete",
            ErrorKind::Other => "other",
        }
    }
}

/// One diagnostic pair of a failure's context.
#[derive(Debug)]
pub struct ContextEntry {
    pub key: String,
    pub value: String,
}

impl ContextEntry {
    pub fn new(key: &str, value: &str) -> (e: Self)
        ensures
            e.key@ == key@,
            e.value@ == value@,
    {
        ContextEntry { key: key.to_owned(), value: value.to_owned() }
    }
}

/// A context as mathematics: the pairs of key and value, in the order given.
pub open spec fn context_view(context: Seq<ContextEntry>) -> Seq<(Seq<char>, Seq<char>)> {
    Seq::new(context.len(), |i: int| (context[i].key@, context[i].value@))
}

/// A backend failure before normalization: what went wrong, and where.
#[derive(Debug)]
pub struct BackendError {
    context: Vec<ContextEntry>,
    cause: String,
}

/// What a `BackendError` holds.
pub struct BackendErrorView {
    pub context: Seq<(Seq<char>, Seq<char>)>,
    pub cause: Seq<char>,
}

impl View for BackendError {
    type V = BackendErrorView;

    closed spec fn view(&self) -> BackendErrorView {
        BackendErrorView { context: context_view(self.context@), cause: self.cause@ }
    }
}

impl BackendError {
    pub fn new(context: Vec<ContextEntry>, cause: &str) -> (e: Self)
        ensures
            e@.context == context_view(context@),
            e@.cause == cause@,
    {
        BackendError { context, cause: cause.to_owned() }
    }
}

/// A failure in the portable taxonomy.
#[derive(Debug)]
pub struct Error {
    kind: ErrorKind,
    source: BackendError,
}

/// What an `Error` holds.
pub struct ErrorView {
    pub kind: ErrorKind,
    pub context: Seq<(Seq<char>, Seq<char>)>,
    pub cause: Seq<char>,
}

impl View for Error {
    type V = ErrorView;

    closed spec fn view(&self) -> ErrorView {
        ErrorView { kind: self.kind, context: self.source@.context, cause: self.source@.cause }
    }
}

/// The pairs of a context in a message: each as `, key: value`.
pub open spec fn context_text(context: Seq<(Seq<char>, Seq<char>)>) -> Seq<char>
    decreases context.len(),
{
    if context.len() == 0 {
        Seq::empty()
    } else {
        context_text(context.drop_last()) + ", "@ + context.last().0 + ": "@ + context.last().1
    }
}

/// The message of a failure: its kind, its cause, then its context.
pub open spec fn error_text(e: ErrorView) -> Seq<char> {
    kind_label(e.kind) + ": "@ + e.cause + context_text(e.context)
}

impl Error {
    /// Normalizes a backend failure into `kind`.
    pub fn new(kind: ErrorKind, source: BackendError) -> (e: Self)
        ensures
            e@.kind == kind,
            e@.context == source@.context,
            e@.cause == source@.cause,
    {
        Error { kind, source }
    }

    pub fn kind(&self) -> (k: ErrorKind)
        ensures
            k == self@.kind,
    {
        self.kind
    }

    /// The message of the underlying cause.
    pub fn cause(&self) -> (c: &str)
        ensures
            c@ == self@.cause,
    {
        self.source.cause.as_str()
    }

    /// The value that the context holds for `key`: the first one, if there are several.
    pub fn context(&self, key: &str) -> (v: Option<&str>)
        ensures
            match v {
                Some(value) => exists|i: int|
                    0 <= i < self@.context.len() && self@.context[i] == (key@, value@) && forall|
                        j: int,
                    | 0 <= j < i ==> self@.context[j].0 != key@,
                None => forall|i: int| 0 <= i < self@.context.len() ==> self@.context[i].0 != key@,
            },
    {
        let mut i: usize = 0;
        while i < self.source.context.len()
            invariant
                i <= self.source.context.len(),
                forall|j: int| 0 <= j < i ==> self@.context[j].0 != key@,
            decreases self.source.context.len() - i,
        {
            if *self.source.context[i].key.as_str() == *key {
                assert(self@.context[i as int] == (key@, self.source.context[i as int].value@));
                return Some(self.source.context[i].value.as_str());
            }
            i += 1;
        }
        None
    }

    /// The message for a user: the kind, the cause and the context.
    pub fn to_string(&self) -> (s: String)
        ensures
            s@ == error_text(self@),
    {
        let mut s = String::from_str(self.kind.label());
        s.append(": ");
        s.append(self.source.cause.as_str());
        let ghost head = s@;
        let mut i: usize = 0;
        while i < self.source.context.len()
            invariant
                i <= self.source.context.len(),
                s@ == head + context_text(self@.context.take(i as int)),
            decreases self.source.context.len() - i,
        {
            let ghost before = self@.context.take(i as int);
            let ghost after = self@.context.take(i + 1);
            s.append(", ");
            s.append(self.source.context[i].key.as_str());
            s.append(": ");
            s.append(self.source.context[i].value.as_str());
            proof {
                assert(after.drop_last() =~= before);
                assert(after.last() == self@.context[i as int]);
                assert(s@ =~= head + context_text(after));
            }
            i += 1;
        }
        proof {
            assert(self@.context.take(i as int) =~= self@.context);
            assert(context_text(Seq::<(Seq<char>, Seq<char>)>::empty()) =~= Seq::<char>::empty());
        }
        s
    }
}

/// Normalizes a backend failure that has no more specific kind.
pub fn other(source: BackendError) -> (e: Error)
    ensures
        e@.kind == ErrorKind::Other,
        e@.context == source@.context,
        e@.cause == source@.cause,
{
    Error::new(ErrorKind::Other, source)
}

} // verus!
