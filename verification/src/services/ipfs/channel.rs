//! The bounded channel between a writer and its upload, and the chunks that travel through it.

use vstd::prelude::*;
use bytes::Bytes;
use futures::channel::mpsc::Receiver;
use futures::channel::mpsc::Sender;
use std::task::Context;

verus! {

/// The sending half of a channel of `futures`.
#[verifier::external_type_specification]
#[verifier::external_body]
#[verifier::reject_recursive_types(T)]
pub struct ExSender<T>(Sender<T>);

/// The receiving half of a channel of `futures`.
#[verifier::external_type_specification]
#[verifier::external_body]
#[verifier::reject_recursive_types(T)]
pub struct ExReceiver<T>(Receiver<T>);

/// A chunk of bytes of `bytes`, cheap to hand on.
#[verifier::external_type_specification]
#[verifier::external_body]
pub struct ExBytes(Bytes);

/// The context of the task that polls.
#[verifier::external_type_specification]
#[verifier::external_body]
pub struct ExContext<'a>(Context<'a>);

/// What the sending half answered. Another task holds the receiving half, so the same question
/// may be answered differently the next time.
#[derive(Debug)]
pub enum Readiness {
    /// Done, or free to go on.
    Ready,
    /// The channel is full: the task will be woken.
    Pending,
    /// The channel refused, in these words.
    Failed(String),
}

/// What the receiving half gave.
#[derive(Debug)]
pub enum Received {
    /// The next chunk.
    Message(Bytes),
    /// No chunk is there, and the sending half is still open.
    Empty,
    /// No chunk is there, and the sending half is closed or gone.
    Closed,
}

/// The bytes that a chunk holds.
pub uninterp spec fn chunk_bytes(b: Bytes) -> Seq<u8>;

/// The buffer that the channel of a receiving half was made with: the messages that it takes
/// beyond the one slot of each sender.
pub uninterp spec fn buffer_of(rx: Receiver<Bytes>) -> usize;

/// Whether a sending half is still connected to its channel.
pub uninterp spec fn connected(tx: Sender<Bytes>) -> bool;

/// `futures::channel::mpsc::channel`: a new bounded channel with the buffer asked for. It
/// panics on a buffer that is not below its limit, a quarter of the largest `usize`.
#[verifier::external_body]
pub(crate) fn channel(buffer: usize) -> (r: (Sender<Bytes>, Receiver<Bytes>))
    requires
        buffer < usize::MAX / 4,
    ensures
        buffer_of(r.1) == buffer,
{
    futures::channel::mpsc::channel::<Bytes>(buffer)
}

/// `Bytes::copy_from_slice`: a chunk that holds a copy of the bytes of the slice.
#[verifier::external_body]
pub(crate) fn copy_to_bytes(buf: &[u8]) -> (b: Bytes)
    ensures
        chunk_bytes(b) == buf@,
{
    Bytes::copy_from_slice(buf)
}

/// `Sender::poll_ready`: whether the channel can take a message now. Nothing is promised of
/// the answer.
#[verifier::external_body]
pub(crate) fn poll_ready(tx: &mut Sender<Bytes>, cx: &mut Context<'_>) -> (r: Readiness) {
    match tx.poll_ready(cx) {
        std::task::Poll::Ready(Ok(())) => Readiness::Ready,
        std::task::Poll::Ready(Err(e)) => Readiness::Failed(e.to_string()),
        std::task::Poll::Pending => Readiness::Pending,
    }
}

/// `Sender::start_send`: hands a chunk to the channel. Nothing is promised of the answer.
#[verifier::external_body]
pub(crate) fn start_send(tx: &mut Sender<Bytes>, chunk: Bytes) -> (r: Result<(), String>) {
    match tx.start_send(chunk) {
        Ok(()) => Ok(()),
        Err(e) => Err(e.to_string()),
    }
}

/// `Sink::poll_flush` of a `Sender`: whether all that was sent has left the sending half.
/// Nothing is promised of the answer.
#[verifier::external_body]
pub(crate) fn poll_flush(tx: &mut Sender<Bytes>, cx: &mut Context<'_>) -> (r: Readiness) {
    match futures::Sink::poll_flush(std::pin::Pin::new(tx), cx) {
        std::task::Poll::Ready(Ok(())) => Readiness::Ready,
        std::task::Poll::Ready(Err(e)) => Readiness::Failed(e.to_string()),
        std::task::Poll::Pending => Readiness::Pending,
    }
}

/// `Sink::poll_close` of a `Sender`: disconnects the sending half. It never waits and never
/// fails, and the sending half is disconnected after it.
#[verifier::external_body]
pub(crate) fn poll_close(tx: &mut Sender<Bytes>, cx: &mut Context<'_>) -> (r: Readiness)
    ensures
        r is Ready,
        !connected(*final(tx)),
{
    match futures::Sink::poll_close(std::pin::Pin::new(tx), cx) {
        std::task::Poll::Ready(Ok(())) => Readiness::Ready,
        std::task::Poll::Ready(Err(e)) => Readiness::Failed(e.to_string()),
        std::task::Poll::Pending => Readiness::Pending,
    }
}

/// `Receiver::try_recv`: the next chunk, if one is there. Nothing is promised of the answer.
#[verifier::external_body]
pub(crate) fn try_recv(rx: &mut Receiver<Bytes>) -> (r: Received) {
    match rx.try_recv() {
        Ok(chunk) => Received::Message(chunk),
        Err(futures::channel::mpsc::TryRecvError::Empty) => Received::Empty,
        Err(futures::channel::mpsc::TryRecvError::Closed) => Received::Closed,
    }
}

} // verus!
