//! The bridge from a writer that pushes chunks to an upload that pulls one body.
//!
//! A bounded channel lies between the two. `RequestWriter` is the side that a caller writes
//! to; `IpfsWriterFuture` is the side that drives the upload. Whoever runs the tasks issues
//! the upload and reports on it: the decisions are made here.

use vstd::prelude::*;
use bytes::Bytes;
use futures::channel::mpsc::Receiver;
use futures::channel::mpsc::Sender;
use std::sync::Arc;
use std::task::Context;
use crate::error::Error;
use crate::error::ErrorKind;
use crate::poll::Poll;
use crate::services::ipfs::backend::Backend;
use crate::services::ipfs::channel::buffer_of;
use crate::services::ipfs::channel::connected;
use crate::services::ipfs::channel::copy_to_bytes;
use crate::services::ipfs::channel::poll_close;
use crate::services::ipfs::channel::poll_flush;
use crate::services::ipfs::channel::poll_ready;
use crate::services::ipfs::channel::start_send;
use crate::services::ipfs::channel::try_recv;
use crate::services::ipfs::channel::Readiness;
use crate::services::ipfs::channel::Received;
use crate::services::ipfs::transport::failure;
use crate::services::ipfs::transport::normalize;
use crate::services::ipfs::transport::normalized;
use crate::services::ipfs::transport::Failure;

verus! {

/// What the body of an upload gives when it is pulled.
#[derive(Debug)]
pub enum Pull {
    /// The next chunk.
    Chunk(Bytes),
    /// No chunk yet: the writer has more to say.
    Pending,
    /// The writer is closed or gone, and every chunk was given.
    End,
}

/// The body of an upload: the first chunk, then the receiving side of the channel.
#[derive(Debug)]
pub struct Body {
    head: Option<Bytes>,
    rx: Receiver<Bytes>,
}

impl Body {
    /// The first chunk, as long as it was not pulled.
    pub closed spec fn head(&self) -> Option<Bytes> {
        self.head
    }

    /// What a pull gives once the first chunk is out, for each answer of the channel.
    pub fn pulled(received: Received) -> (p: Pull)
        ensures
            match received {
                Received::Message(chunk) => p == Pull::Chunk(chunk),
                Received::Empty => p is Pending,
                Received::Closed => p is End,
            },
    {
        match received {
            Received::Message(chunk) => Pull::Chunk(chunk),
            Received::Empty => Pull::Pending,
            Received::Closed => Pull::End,
        }
    }

    /// The next chunk of the body. The first chunk comes first; after it, the chunks come as
    /// the channel gives them.
    pub fn pull(&mut self) -> (p: Pull)
        ensures
            final(self).head() is None,
            old(self).head() matches Some(chunk) ==> p == Pull::Chunk(chunk),
    {
        match self.head.take() {
            Some(chunk) => Pull::Chunk(chunk),
            None => Body::pulled(try_recv(&mut self.rx)),
        }
    }
}

/// The upload to issue: one call, whose body is pulled as the writer goes on.
#[derive(Debug)]
pub struct Upload {
    /// The absolute path to write.
    pub path: String,
    /// Whether the file is made where there is none.
    pub create: bool,
    /// Whether what the file held is dropped.
    pub truncate: bool,
    /// The bytes to write.
    pub body: Body,
}

/// What the transport says of the upload in flight.
#[derive(Debug)]
pub enum Report {
    /// The upload has not ended.
    Pending,
    /// The upload has ended, with this result.
    Done(Result<(), Failure>),
}

/// What a poll of the upload's driver asks for, or answers.
#[derive(Debug)]
pub enum WriterPoll {
    /// Issue this upload, poll it, and poll the driver again with the report.
    Send(Upload),
    /// Poll the upload in flight, and poll the driver again with the report.
    Await,
    /// Nothing to answer yet.
    Pending,
    /// The result of the write.
    Ready(Result<(), Error>),
}

enum State {
    Init(Receiver<Bytes>),
    Sending,
}

/// The driver of one upload.
pub struct IpfsWriterFuture {
    backend: Arc<Backend>,
    path: String,
    state: State,
}

/// The words of the failure of a write that was closed before its first chunk.
pub open spec fn incomplete_words() -> Seq<char> {
    "channel closed before the write was complete"@
}

/// What an answer of the channel means before the upload is issued: a chunk is the content to
/// begin with, an empty channel means that there is none yet, and a channel that was closed
/// before any content came makes the write incomplete.
pub open spec fn content_answer(
    path: Seq<char>,
    received: Received,
    r: Result<Option<Bytes>, Error>,
) -> bool {
    match received {
        Received::Message(chunk) => r == Ok::<Option<Bytes>, Error>(Some(chunk)),
        Received::Empty => r matches Ok(None),
        Received::Closed => r matches Err(e) && incomplete(path, e),
    }
}

/// The failure of a write whose channel was closed before its first chunk.
pub open spec fn incomplete(path: Seq<char>, e: Error) -> bool {
    &&& e@.kind == ErrorKind::Incomplete
    &&& e@.cause == incomplete_words()
    &&& e@.context == seq![("op"@, "write"@), ("path"@, path)]
}

/// What the driver owes once the upload is issued, for each report.
pub open spec fn sending_answer(path: Seq<char>, report: Option<Report>, p: WriterPoll) -> bool {
    match report {
        None => p is Await,
        Some(Report::Pending) => p is Pending,
        Some(Report::Done(Ok(()))) => p matches WriterPoll::Ready(Ok(())),
        Some(Report::Done(Err(f))) => p matches WriterPoll::Ready(Err(e)) && normalized(
            f,
            "write"@,
            path,
            e,
        ),
    }
}

/// What the driver owes before the upload is issued, for each answer of the channel.
///
/// A chunk makes the driver hand out the upload and move on: the upload writes the driver's
/// path, makes the file where there is none and drops what it held, and its body begins
/// with that chunk. An empty channel leaves the driver waiting. A channel that was closed
/// before any chunk came fails the write as incomplete.
pub open spec fn begin_answer(
    path: Seq<char>,
    received: Received,
    p: WriterPoll,
    sending: bool,
) -> bool {
    match received {
        Received::Message(chunk) => sending && (p matches WriterPoll::Send(upload) && upload.path@
            == path && upload.create && upload.truncate && upload.body.head() == Some(chunk)),
        Received::Empty => !sending && p is Pending,
        Received::Closed => !sending && (p matches WriterPoll::Ready(Err(e)) && incomplete(
            path,
            e,
        )),
    }
}

/// What the driver owes before the upload is issued, whatever the channel gave.
pub open spec fn init_answer(path: Seq<char>, p: WriterPoll, sending: bool) -> bool {
    exists|received: Received| begin_answer(path, received, p, sending)
}

impl IpfsWriterFuture {
    /// The absolute path that is written.
    pub closed spec fn path(&self) -> Seq<char> {
        self.path@
    }

    /// The backend that the upload goes to.
    pub closed spec fn backend(&self) -> Backend {
        *self.backend
    }

    /// Whether the upload was issued.
    pub closed spec fn is_sending(&self) -> bool {
        self.state is Sending
    }

    /// The buffer of the channel that the driver receives from, as long as it holds the
    /// receiving side.
    pub closed spec fn buffer(&self) -> Option<usize> {
        match self.state {
            State::Init(rx) => Some(buffer_of(rx)),
            State::Sending => None,
        }
    }

    pub fn new(rx: Receiver<Bytes>, backend: Arc<Backend>, path: String) -> (fut: Self)
        ensures
            fut.path() == path@,
            fut.backend() == *backend,
            !fut.is_sending(),
            fut.buffer() == Some(buffer_of(rx)),
    {
        Self { backend, path, state: State::Init(rx) }
    }

    /// What an answer of the channel means before the upload is issued.
    pub fn content(&self, received: Received) -> (r: Result<Option<Bytes>, Error>)
        ensures
            content_answer(self.path(), received, r),
    {
        match received {
            Received::Message(chunk) => Ok(Some(chunk)),
            Received::Empty => Ok(None),
            Received::Closed => Err(
                failure(
                    ErrorKind::Incomplete,
                    "channel closed before the write was complete",
                    "write",
                    self.path.as_str(),
                ),
            ),
        }
    }

    /// Asks the channel for the content to begin the upload with. Once the upload is issued
    /// the channel belongs to its body, and there is nothing to ask.
    pub fn poll_content(&mut self) -> (r: Result<Option<Bytes>, Error>)
        ensures
            final(self).path() == old(self).path(),
            final(self).backend() == old(self).backend(),
            final(self).is_sending() == old(self).is_sending(),
            old(self).is_sending() ==> r matches Ok(None),
            exists|received: Received| content_answer(old(self).path(), received, r),
    {
        let received = match &mut self.state {
            State::Init(rx) => try_recv(rx),
            State::Sending => Received::Empty,
        };
        let ghost given = received;
        let r = self.content(received);
        assert(content_answer(old(self).path(), given, r));
        r
    }

    /// What the driver does with an answer of the channel before the upload is issued: see
    /// `begin_answer`.
    pub fn begin(&mut self, received: Received) -> (p: WriterPoll)
        requires
            !old(self).is_sending(),
        ensures
            final(self).path() == old(self).path(),
            final(self).backend() == old(self).backend(),
            begin_answer(old(self).path(), received, p, final(self).is_sending()),
    {
        match self.content(received) {
            Err(e) => WriterPoll::Ready(Err(e)),
            Ok(None) => WriterPoll::Pending,
            Ok(Some(chunk)) => {
                let mut state = State::Sending;
                std::mem::swap(&mut self.state, &mut state);
                match state {
                    State::Init(rx) => WriterPoll::Send(
                        Upload {
                            path: self.path.clone(),
                            create: true,
                            truncate: true,
                            body: Body { head: Some(chunk), rx },
                        },
                    ),
                    State::Sending => WriterPoll::Pending,
                }
            },
        }
    }

    /// One poll of the driver.
    ///
    /// Before the upload is issued, the driver asks the channel and does with the answer
    /// what `begin` says: the first chunk makes it hand out the upload, with the chunk and
    /// the receiving side of the channel as its body. After that it passes on what is
    /// reported of the upload.
    pub fn poll(&mut self, report: Option<Report>) -> (p: WriterPoll)
        ensures
            final(self).path() == old(self).path(),
            final(self).backend() == old(self).backend(),
            old(self).is_sending() ==> final(self).is_sending() && sending_answer(
                old(self).path(),
                report,
                p,
            ),
            !old(self).is_sending() ==> init_answer(old(self).path(), p, final(self).is_sending()),
    {
        let received = match &mut self.state {
            State::Init(rx) => try_recv(rx),
            State::Sending => {
                return match report {
                    None => WriterPoll::Await,
                    Some(Report::Pending) => WriterPoll::Pending,
                    Some(Report::Done(Ok(()))) => WriterPoll::Ready(Ok(())),
                    Some(Report::Done(Err(f))) => WriterPoll::Ready(
                        Err(normalize(f, "write", self.path.as_str())),
                    ),
                };
            },
        };
        let ghost given = received;
        let p = self.begin(received);
        assert(begin_answer(old(self).path(), given, p, self.is_sending()));
        p
    }
}

/// The failure of a write that the channel refused, whatever its words.
pub open spec fn refused(path: Seq<char>, e: Error) -> bool {
    &&& e@.kind == ErrorKind::Other
    &&& e@.context == seq![("op"@, "write"@), ("path"@, path)]
}

/// The upload is issued once: a driver that has issued it never asks for it again, and what it
/// answers is the transport's own result.
pub proof fn lemma_single_upload(path: Seq<char>, report: Option<Report>, p: WriterPoll)
    requires
        sending_answer(path, report, p),
    ensures
        !(p is Send),
        p is Ready <==> report matches Some(Report::Done(_)),
        p matches WriterPoll::Ready(Ok(())) <==> report matches Some(Report::Done(Ok(()))),
{
}

/// A write that the channel closed on before its first chunk fails as incomplete: it is never
/// answered with success.
pub proof fn lemma_closed_is_incomplete(path: Seq<char>, r: Result<Option<Bytes>, Error>)
    requires
        content_answer(path, Received::Closed, r),
    ensures
        r matches Err(e) && e@.kind == ErrorKind::Incomplete,
{
}

/// The side of the bridge that a caller writes to.
pub struct RequestWriter {
    tx: Sender<Bytes>,
    fut: IpfsWriterFuture,
}

impl RequestWriter {
    /// The driver of the upload that the chunks go to.
    pub closed spec fn future(&self) -> IpfsWriterFuture {
        self.fut
    }

    /// Whether the sending side is still connected to the channel.
    pub closed spec fn is_connected(&self) -> bool {
        connected(self.tx)
    }

    pub fn new(tx: Sender<Bytes>, fut: IpfsWriterFuture) -> (w: Self)
        ensures
            w.future() == fut,
            w.is_connected() == connected(tx),
    {
        Self { tx, fut }
    }

    /// What a write or a flush answers while it waits for the channel, once the upload was
    /// driven on and came to `driven`: a failure of the upload fails it, with that failure;
    /// whatever else the upload came to, it goes on waiting.
    pub fn while_waiting<T>(driven: Poll<Result<(), Error>>) -> (p: Poll<Result<T, Error>>)
        ensures
            match driven {
                Poll::Ready(Err(e)) => p matches Poll::Ready(Err(f)) && f == e,
                _ => p is Pending,
            },
    {
        match driven {
            Poll::Ready(Err(e)) => Poll::Ready(Err(e)),
            _ => Poll::Pending,
        }
    }

    /// What a refusal of the channel becomes: a failure of kind `Other`, in the channel's words.
    pub fn channel_failure(&self, words: &str) -> (e: Error)
        ensures
            e@.kind == ErrorKind::Other,
            e@.cause == words@,
            e@.context == seq![("op"@, "write"@), ("path"@, self.future().path())],
    {
        failure(ErrorKind::Other, words, "write", self.fut.path.as_str())
    }

    /// What a write answers before it sends, for each answer of the channel: nothing where
    /// the channel can take the chunk, else that the writer has to wait or has failed.
    pub fn write_blocked(&self, ready: Readiness) -> (p: Option<Poll<Result<usize, Error>>>)
        ensures
            match ready {
                Readiness::Ready => p is None,
                Readiness::Pending => p matches Some(Poll::Pending),
                Readiness::Failed(words) => p matches Some(Poll::Ready(Err(e))) && refused(
                    self.future().path(),
                    e,
                ) && e@.cause == words@,
            },
    {
        match ready {
            Readiness::Ready => None,
            Readiness::Pending => Some(Poll::Pending),
            Readiness::Failed(words) => Some(Poll::Ready(Err(self.channel_failure(words.as_str())))),
        }
    }

    /// What a write answers once it has sent `size` bytes, for each answer of the channel.
    pub fn write_sent(&self, sent: Result<(), String>, size: usize) -> (p: Poll<
        Result<usize, Error>,
    >)
        ensures
            match sent {
                Ok(()) => p matches Poll::Ready(Ok(n)) && n == size,
                Err(words) => p matches Poll::Ready(Err(e)) && refused(self.future().path(), e)
                    && e@.cause == words@,
            },
    {
        match sent {
            Ok(()) => Poll::Ready(Ok(size)),
            Err(words) => Poll::Ready(Err(self.channel_failure(words.as_str()))),
        }
    }

    /// What a flush answers, for each answer of the channel.
    pub fn flushed(&self, ready: Readiness) -> (p: Poll<Result<(), Error>>)
        ensures
            match ready {
                Readiness::Ready => p matches Poll::Ready(Ok(())),
                Readiness::Pending => p is Pending,
                Readiness::Failed(words) => p matches Poll::Ready(Err(e)) && refused(
                    self.future().path(),
                    e,
                ) && e@.cause == words@,
            },
    {
        match ready {
            Readiness::Ready => Poll::Ready(Ok(())),
            Readiness::Pending => Poll::Pending,
            Readiness::Failed(words) => Poll::Ready(Err(self.channel_failure(words.as_str()))),
        }
    }

    /// Polls the driver of the upload.
    pub fn poll_response(&mut self, report: Option<Report>) -> (p: WriterPoll)
        ensures
            final(self).is_connected() == old(self).is_connected(),
            final(self).future().path() == old(self).future().path(),
            final(self).future().backend() == old(self).future().backend(),
            old(self).future().is_sending() ==> final(self).future().is_sending()
                && sending_answer(old(self).future().path(), report, p),
            !old(self).future().is_sending() ==> init_answer(
                old(self).future().path(),
                p,
                final(self).future().is_sending(),
            ),
    {
        self.fut.poll(report)
    }

    /// Takes a copy of `buf` as one chunk, once the channel has room for it, and answers with
    /// the number of bytes taken: all of them. While the channel is full the writer waits.
    pub fn poll_write(&mut self, cx: &mut Context<'_>, buf: &[u8]) -> (p: Poll<
        Result<usize, Error>,
    >)
        ensures
            final(self).future() == old(self).future(),
            match p {
                Poll::Ready(Ok(n)) => n == buf@.len(),
                Poll::Ready(Err(e)) => refused(old(self).future().path(), e),
                Poll::Pending => true,
            },
    {
        let ready = poll_ready(&mut self.tx, cx);
        match self.write_blocked(ready) {
            Some(answer) => answer,
            None => {
                let size = buf.len();
                let sent = start_send(&mut self.tx, copy_to_bytes(buf));
                self.write_sent(sent, size)
            },
        }
    }

    /// Waits until every chunk that was written has left the writer.
    pub fn poll_flush(&mut self, cx: &mut Context<'_>) -> (p: Poll<Result<(), Error>>)
        ensures
            final(self).future() == old(self).future(),
            p matches Poll::Ready(Err(e)) ==> refused(old(self).future().path(), e),
    {
        let ready = poll_flush(&mut self.tx, cx);
        self.flushed(ready)
    }

    /// Closes the sending side of the channel, which tells the upload that its body has ended,
    /// then polls the driver for the result of the upload.
    pub fn poll_close(&mut self, cx: &mut Context<'_>, report: Option<Report>) -> (p: WriterPoll)
        ensures
            !final(self).is_connected(),
            final(self).future().path() == old(self).future().path(),
            final(self).future().backend() == old(self).future().backend(),
            old(self).future().is_sending() ==> final(self).future().is_sending()
                && sending_answer(old(self).future().path(), report, p),
            !old(self).future().is_sending() ==> init_answer(
                old(self).future().path(),
                p,
                final(self).future().is_sending(),
            ),
    {
        match poll_close(&mut self.tx, cx) {
            Readiness::Ready => self.poll_response(report),
            Readiness::Pending => WriterPoll::Pending,
            Readiness::Failed(words) => WriterPoll::Ready(
                Err(self.channel_failure(words.as_str())),
            ),
        }
    }
}

} // verus!
