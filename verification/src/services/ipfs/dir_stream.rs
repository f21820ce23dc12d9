//! The entries of a directory, one at a time, from one listing call.

use vstd::prelude::*;
use std::sync::Arc;
use crate::error::Error;
use crate::object::DirEntry;
use crate::object::ObjectMode;
use crate::services::ipfs::backend::share;
use crate::services::ipfs::backend::Backend;
use crate::services::ipfs::transport::normalize;
use crate::services::ipfs::transport::normalized;
use crate::services::ipfs::transport::Failure;
use crate::services::ipfs::transport::FilesEntry;
use crate::services::ipfs::transport::FilesLsResponse;

verus! {

/// What the transport says of the listing call in flight.
#[derive(Debug)]
pub enum ListReport {
    /// The call has not ended.
    Pending,
    /// The call has ended, with this result.
    Done(Result<FilesLsResponse, Failure>),
}

/// What a poll of the stream asks for, or answers.
#[derive(Debug)]
pub enum DirPoll {
    /// Issue the listing call for this path, poll it, and poll the stream again with the report.
    Send(String),
    /// Poll the call in flight, and poll the stream again with the report.
    Await,
    /// Nothing to answer yet.
    Pending,
    /// The next entry, the failure of the listing, or the end of the entries.
    Ready(Option<Result<DirEntry, Error>>),
}

enum State {
    Idle,
    Sending,
    Listing(Vec<FilesEntry>, usize),
    Ended,
}

/// How far a stream has come.
pub enum Progress {
    /// No call was issued.
    Idle,
    /// The listing call is in flight.
    Sending,
    /// The listing is there: `entries` is all of it, `cursor` counts the entries given out.
    Listing { entries: Seq<FilesEntry>, cursor: int },
    /// The listing call failed and its failure was passed on: the stream has ended.
    Ended,
}

/// What a poll comes to.
pub enum Answer {
    /// The listing call for the stream's path is asked for.
    Send,
    /// A poll of the call in flight is asked for.
    Await,
    /// Nothing yet.
    Pending,
    /// The listing failed.
    Failed(Failure),
    /// The entry at this place of the listing is given out.
    Entry(FilesEntry),
    /// The entries are at their end.
    End,
}

/// The mode that a node's code stands for. A code that is not known is no error.
pub open spec fn mode_of(typ: u64) -> ObjectMode {
    if typ == 1 {
        ObjectMode::DIR
    } else if typ == 2 {
        ObjectMode::FILE
    } else {
        ObjectMode::Unknown
    }
}

/// One step of a stream whose listing is there: the next entry, or the end.
pub open spec fn next_entry(entries: Seq<FilesEntry>, cursor: int) -> (Progress, Answer) {
    if 0 <= cursor < entries.len() {
        (Progress::Listing { entries, cursor: cursor + 1 }, Answer::Entry(entries[cursor]))
    } else {
        (Progress::Listing { entries, cursor }, Answer::End)
    }
}

/// One poll of a stream: where it goes from `progress`, and what it comes to.
///
/// A stream that is idle asks for the listing call. While the call is in flight the stream
/// asks for it to be polled and waits. A failure of the call is passed on and ends the
/// stream: every later poll answers with the end, and no call is asked for again. The result
/// of the call is kept whole, and its first entry given out at once. From then on each poll
/// gives out one entry, in the order of the listing, and no report is looked at.
pub open spec fn step(progress: Progress, report: Option<ListReport>) -> (Progress, Answer) {
    match progress {
        Progress::Idle => (Progress::Sending, Answer::Send),
        Progress::Sending => match report {
            None => (Progress::Sending, Answer::Await),
            Some(ListReport::Pending) => (Progress::Sending, Answer::Pending),
            Some(ListReport::Done(Err(f))) => (Progress::Ended, Answer::Failed(f)),
            Some(ListReport::Done(Ok(listing))) => next_entry(listing.entries@, 0),
        },
        Progress::Listing { entries, cursor } => next_entry(entries, cursor),
        Progress::Ended => (Progress::Ended, Answer::End),
    }
}

/// Whether `p` is what a stream for `path` on `backend` hands out for `answer`.
pub open spec fn hands_out(p: DirPoll, answer: Answer, backend: Backend, path: Seq<char>) -> bool {
    match answer {
        Answer::Send => p matches DirPoll::Send(s) && s@ == path,
        Answer::Await => p is Await,
        Answer::Pending => p is Pending,
        Answer::Failed(f) => p matches DirPoll::Ready(Some(Err(e))) && normalized(
            f,
            "list"@,
            path,
            e,
        ),
        Answer::Entry(entry) => p matches DirPoll::Ready(Some(Ok(de))) && de.backend_view()
            == backend && de.mode() == mode_of(entry.typ) && de.name_view() == entry.name@,
        Answer::End => p matches DirPoll::Ready(None),
    }
}

/// A lazy sequence of the entries of one directory.
pub struct DirStream {
    backend: Arc<Backend>,
    state: State,
    path: String,
}

impl DirStream {
    /// The backend that is listed.
    pub closed spec fn backend(&self) -> Backend {
        *self.backend
    }

    /// The absolute path that is listed.
    pub closed spec fn path(&self) -> Seq<char> {
        self.path@
    }

    /// How far the stream has come.
    pub closed spec fn progress(&self) -> Progress {
        match self.state {
            State::Idle => Progress::Idle,
            State::Sending => Progress::Sending,
            State::Listing(entries, idx) => Progress::Listing { entries: entries@, cursor: idx as int },
            State::Ended => Progress::Ended,
        }
    }

    pub fn new(backend: Arc<Backend>, path: &str) -> (s: Self)
        ensures
            s.backend() == *backend,
            s.path() == path@,
            s.progress() is Idle,
    {
        Self { backend, state: State::Idle, path: path.to_owned() }
    }

    /// The mode that a node's code stands for.
    pub fn mode(typ: u64) -> (m: ObjectMode)
        ensures
            m == mode_of(typ),
    {
        match typ {
            1 => ObjectMode::DIR,
            2 => ObjectMode::FILE,
            _ => ObjectMode::Unknown,
        }
    }

    /// One poll of the stream: see `step`.
    pub fn poll_next(&mut self, report: Option<ListReport>) -> (p: DirPoll)
        ensures
            final(self).backend() == old(self).backend(),
            final(self).path() == old(self).path(),
            final(self).progress() == step(old(self).progress(), report).0,
            hands_out(p, step(old(self).progress(), report).1, old(self).backend(), old(self).path()),
    {
        match &mut self.state {
            State::Idle => {
                self.state = State::Sending;
                return DirPoll::Send(self.path.clone());
            },
            State::Sending => {
                match report {
                    None => {
                        return DirPoll::Await;
                    },
                    Some(ListReport::Pending) => {
                        return DirPoll::Pending;
                    },
                    Some(ListReport::Done(Err(f))) => {
                        self.state = State::Ended;
                        return DirPoll::Ready(Some(Err(normalize(f, "list", self.path.as_str()))));
                    },
                    Some(ListReport::Done(Ok(listing))) => {
                        self.state = State::Listing(listing.entries, 0);
                    },
                }
            },
            State::Listing(_, _) => {},
            State::Ended => {
                return DirPoll::Ready(None);
            },
        }
        match &mut self.state {
            State::Listing(entries, idx) => {
                if *idx < entries.len() {
                    let object = &entries[*idx];
                    let mode = DirStream::mode(object.typ);
                    let de = DirEntry::new(share(&self.backend), mode, object.name.as_str());
                    *idx += 1;
                    DirPoll::Ready(Some(Ok(de)))
                } else {
                    DirPoll::Ready(None)
                }
            },
            _ => DirPoll::Ready(None),
        }
    }
}

/// A stream whose listing is there asks for no call and fails on no entry, whatever the
/// entries hold and whatever is reported to it.
pub proof fn lemma_listing_is_final(entries: Seq<FilesEntry>, cursor: int, report: Option<ListReport>)
    ensures
        ({
            let (next, answer) = step(Progress::Listing { entries, cursor }, report);
            &&& next matches Progress::Listing { entries: kept, cursor: _ } && kept == entries
            &&& answer is Entry || answer is End
        }),
{
}

/// A failure of the listing call ends the stream: the failure is passed on once, and from
/// then on every poll answers with the end, whatever is reported, and asks for no call.
pub proof fn lemma_failure_ends(f: Failure, report: Option<ListReport>)
    ensures
        step(Progress::Sending, Some(ListReport::Done(Err(f)))) == (
            Progress::Ended,
            Answer::Failed(f),
        ),
        step(Progress::Ended, report) == (Progress::Ended, Answer::End),
{
}

/// The listing of a directory without entries ends at once, with no failure.
pub proof fn lemma_empty_listing(listing: FilesLsResponse)
    requires
        listing.entries@.len() == 0,
    ensures
        step(Progress::Sending, Some(ListReport::Done(Ok(listing)))).1 is End,
{
}

/// The entries come out in the order of the listing, each one once: the poll at cursor `i`
/// gives out the entry at `i`, and moves the cursor by one.
pub proof fn lemma_entries_in_order(entries: Seq<FilesEntry>, cursor: int, report: Option<ListReport>)
    requires
        0 <= cursor < entries.len(),
    ensures
        step(Progress::Listing { entries, cursor }, report) == (
            Progress::Listing { entries, cursor: cursor + 1 },
            Answer::Entry(entries[cursor]),
        ),
{
}

/// Once the entries are at their end, they stay there.
pub proof fn lemma_end_is_final(entries: Seq<FilesEntry>, cursor: int, report: Option<ListReport>)
    requires
        cursor >= entries.len(),
    ensures
        step(Progress::Listing { entries, cursor }, report) == (
            Progress::Listing { entries, cursor },
            Answer::End,
        ),
{
}

} // verus!
