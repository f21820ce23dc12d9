use bytes::Bytes;
use futures::channel::mpsc::channel;
use futures::task::noop_waker_ref;
use opendal::error::ErrorKind;
use opendal::ops::OpWrite;
use opendal::poll::Poll;
use opendal::services::ipfs::channel::Readiness;
use opendal::services::ipfs::channel::Received;
use opendal::services::ipfs::request_writer::Body;
use opendal::services::ipfs::request_writer::IpfsWriterFuture;
use opendal::services::ipfs::request_writer::Pull;
use opendal::services::ipfs::request_writer::Report;
use opendal::services::ipfs::request_writer::RequestWriter;
use opendal::services::ipfs::request_writer::Upload;
use opendal::services::ipfs::request_writer::WriterPoll;
use opendal::services::ipfs::transport::Failure;
use opendal::services::ipfs::Backend;
use std::sync::Arc;
use std::task::Context;

fn writer(path: &str) -> RequestWriter {
    Backend::new("/".to_string()).write(&OpWrite::new(path)).unwrap()
}

fn written(w: &mut RequestWriter, buf: &[u8]) -> Poll<Result<usize, opendal::error::Error>> {
    let mut cx = Context::from_waker(noop_waker_ref());
    w.poll_write(&mut cx, buf)
}

fn upload_of(p: WriterPoll) -> Upload {
    match p {
        WriterPoll::Send(upload) => upload,
        other => panic!("{:?}", other),
    }
}

fn chunk_of(p: Pull) -> Bytes {
    match p {
        Pull::Chunk(chunk) => chunk,
        other => panic!("{:?}", other),
    }
}

#[test]
fn write_takes_the_whole_buffer() {
    let mut w = writer("f");
    assert!(matches!(written(&mut w, b"Hello, world!"), Poll::Ready(Ok(13))));
}

#[test]
fn write_waits_while_the_channel_is_full() {
    let mut w = writer("f");
    assert!(matches!(written(&mut w, b"one"), Poll::Ready(Ok(3))));
    assert!(matches!(written(&mut w, b"two"), Poll::Pending));
    assert!(matches!(written(&mut w, b"two"), Poll::Pending));
    let mut upload = upload_of(w.poll_response(None));
    assert_eq!(chunk_of(upload.body.pull()), Bytes::from_static(b"one"));
    assert!(matches!(written(&mut w, b"two"), Poll::Ready(Ok(3))));
}

#[test]
fn driver_waits_for_the_first_chunk() {
    let mut w = writer("f");
    assert!(matches!(w.poll_response(None), WriterPoll::Pending));
    assert!(matches!(w.poll_response(Some(Report::Done(Ok(())))), WriterPoll::Pending));
    assert!(matches!(written(&mut w, b"x"), Poll::Ready(Ok(1))));
    let upload = upload_of(w.poll_response(None));
    assert_eq!(upload.path, "/f");
    assert!(upload.create);
    assert!(upload.truncate);
}

#[test]
fn chunks_arrive_in_the_order_written() {
    let mut cx = Context::from_waker(noop_waker_ref());
    let mut w = writer("dir/file.bin");
    let mut stored = Vec::new();
    assert!(matches!(written(&mut w, b"b1-"), Poll::Ready(Ok(3))));
    let mut upload = upload_of(w.poll_response(None));
    assert_eq!(upload.path, "/dir/file.bin");
    stored.extend_from_slice(&chunk_of(upload.body.pull()));
    assert!(matches!(upload.body.pull(), Pull::Pending));
    assert!(matches!(written(&mut w, b"b2--"), Poll::Ready(Ok(4))));
    stored.extend_from_slice(&chunk_of(upload.body.pull()));
    assert!(matches!(written(&mut w, b"b3---"), Poll::Ready(Ok(5))));
    assert!(matches!(w.poll_close(&mut cx, None), WriterPoll::Await));
    stored.extend_from_slice(&chunk_of(upload.body.pull()));
    assert!(matches!(upload.body.pull(), Pull::End));
    assert!(matches!(upload.body.pull(), Pull::End));
    assert!(matches!(w.poll_close(&mut cx, Some(Report::Pending)), WriterPoll::Pending));
    assert!(matches!(w.poll_close(&mut cx, Some(Report::Done(Ok(())))), WriterPoll::Ready(Ok(()))));
    assert_eq!(stored, b"b1-b2--b3---".to_vec());
}

#[test]
fn close_gives_the_result_of_the_upload() {
    let mut cx = Context::from_waker(noop_waker_ref());
    let mut w = writer("f");
    assert!(matches!(written(&mut w, b"x"), Poll::Ready(Ok(1))));
    let _upload = upload_of(w.poll_close(&mut cx, None));
    let failed = Report::Done(Err(Failure::Client { message: "connection reset".to_string() }));
    match w.poll_close(&mut cx, Some(failed)) {
        WriterPoll::Ready(Err(e)) => {
            assert_eq!(e.kind(), ErrorKind::Other);
            assert_eq!(e.cause(), "connection reset");
            assert_eq!(e.context("op"), Some("write"));
            assert_eq!(e.context("path"), Some("/f"));
        }
        other => panic!("{:?}", other),
    }
}

#[test]
fn close_without_a_chunk_is_incomplete() {
    let mut cx = Context::from_waker(noop_waker_ref());
    let mut w = writer("f");
    match w.poll_close(&mut cx, None) {
        WriterPoll::Ready(Err(e)) => {
            assert_eq!(e.kind(), ErrorKind::Incomplete);
            assert_eq!(e.context("path"), Some("/f"));
        }
        other => panic!("{:?}", other),
    }
}

#[test]
fn dropped_sender_is_incomplete() {
    let (tx, rx) = channel::<Bytes>(0);
    let backend = Arc::new(Backend::new("/".to_string()));
    let mut fut = IpfsWriterFuture::new(rx, backend, "/f".to_string());
    assert!(matches!(fut.poll_content(), Ok(None)));
    assert!(matches!(fut.poll(None), WriterPoll::Pending));
    drop(tx);
    match fut.poll(None) {
        WriterPoll::Ready(Err(e)) => assert_eq!(e.kind(), ErrorKind::Incomplete),
        other => panic!("{:?}", other),
    }
    match fut.poll_content() {
        Err(e) => assert_eq!(e.kind(), ErrorKind::Incomplete),
        other => panic!("{:?}", other),
    }
}

#[test]
fn dropped_sender_ends_the_body() {
    let (mut tx, rx) = channel::<Bytes>(0);
    let backend = Arc::new(Backend::new("/".to_string()));
    let mut fut = IpfsWriterFuture::new(rx, backend, "/f".to_string());
    tx.try_send(Bytes::from_static(b"part")).unwrap();
    let mut upload = upload_of(fut.poll(None));
    assert!(matches!(fut.poll_content(), Ok(None)));
    drop(tx);
    assert_eq!(chunk_of(upload.body.pull()), Bytes::from_static(b"part"));
    assert!(matches!(upload.body.pull(), Pull::End));
}

#[test]
fn write_after_the_upload_is_gone_fails() {
    let mut cx = Context::from_waker(noop_waker_ref());
    let mut w = writer("f");
    assert!(matches!(written(&mut w, b"x"), Poll::Ready(Ok(1))));
    let upload = upload_of(w.poll_response(None));
    drop(upload);
    match written(&mut w, b"y") {
        Poll::Ready(Err(e)) => {
            assert_eq!(e.kind(), ErrorKind::Other);
            assert_eq!(e.cause(), "send failed because receiver is gone");
        }
        other => panic!("{:?}", other),
    }
    assert!(matches!(w.poll_flush(&mut cx), Poll::Ready(Ok(()))));
}

#[test]
fn flush_waits_for_the_chunk_to_leave() {
    let mut cx = Context::from_waker(noop_waker_ref());
    let mut w = writer("f");
    assert!(matches!(w.poll_flush(&mut cx), Poll::Ready(Ok(()))));
    assert!(matches!(written(&mut w, b"x"), Poll::Ready(Ok(1))));
    assert!(matches!(w.poll_flush(&mut cx), Poll::Pending));
    let mut upload = upload_of(w.poll_response(None));
    assert_eq!(chunk_of(upload.body.pull()), Bytes::from_static(b"x"));
    assert!(matches!(w.poll_flush(&mut cx), Poll::Ready(Ok(()))));
}

#[test]
fn answers_for_each_word_of_the_channel() {
    let w = writer("f");
    assert!(w.write_blocked(Readiness::Ready).is_none());
    assert!(matches!(w.write_blocked(Readiness::Pending), Some(Poll::Pending)));
    match w.write_blocked(Readiness::Failed("gone".to_string())) {
        Some(Poll::Ready(Err(e))) => assert_eq!(e.cause(), "gone"),
        other => panic!("{:?}", other),
    }
    assert!(matches!(w.write_sent(Ok(()), 9), Poll::Ready(Ok(9))));
    match w.write_sent(Err("full".to_string()), 9) {
        Poll::Ready(Err(e)) => assert_eq!(e.kind(), ErrorKind::Other),
        other => panic!("{:?}", other),
    }
    assert!(matches!(w.flushed(Readiness::Ready), Poll::Ready(Ok(()))));
    assert!(matches!(w.flushed(Readiness::Pending), Poll::Pending));
    assert!(matches!(w.flushed(Readiness::Failed("gone".to_string())), Poll::Ready(Err(_))));
    assert!(matches!(Body::pulled(Received::Empty), Pull::Pending));
    assert!(matches!(Body::pulled(Received::Closed), Pull::End));
    assert_eq!(chunk_of(Body::pulled(Received::Message(Bytes::from_static(b"m")))), Bytes::from_static(b"m"));
}

#[test]
fn hello_world_goes_through() {
    let mut cx = Context::from_waker(noop_waker_ref());
    let backend = Backend::new("/".to_string());
    let mut w = backend.write(&OpWrite::new("/file.txt")).unwrap();
    assert!(matches!(written(&mut w, b"Hello, world!"), Poll::Ready(Ok(13))));
    let mut upload = upload_of(w.poll_close(&mut cx, None));
    assert_eq!(upload.path, "/file.txt");
    let stored = chunk_of(upload.body.pull());
    assert_eq!(&stored[..], b"Hello, world!");
    assert_eq!(stored.len(), 13);
    assert!(matches!(upload.body.pull(), Pull::End));
    assert!(matches!(w.poll_close(&mut cx, Some(Report::Done(Ok(())))), WriterPoll::Ready(Ok(()))));
}

#[test]
fn begin_hands_out_the_upload_with_the_chunk() {
    let (_tx, rx) = channel::<Bytes>(0);
    let backend = Arc::new(Backend::new("/".to_string()));
    let mut fut = IpfsWriterFuture::new(rx, backend, "/f".to_string());
    let mut upload = upload_of(fut.begin(Received::Message(Bytes::from_static(b"first"))));
    assert_eq!(upload.path, "/f");
    assert!(upload.create);
    assert!(upload.truncate);
    assert_eq!(chunk_of(upload.body.pull()), Bytes::from_static(b"first"));
    assert!(matches!(fut.poll(None), WriterPoll::Await));
}

#[test]
fn begin_waits_or_fails_without_a_chunk() {
    let (_tx, rx) = channel::<Bytes>(0);
    let backend = Arc::new(Backend::new("/".to_string()));
    let mut fut = IpfsWriterFuture::new(rx, backend, "/f".to_string());
    assert!(matches!(fut.begin(Received::Empty), WriterPoll::Pending));
    match fut.begin(Received::Closed) {
        WriterPoll::Ready(Err(e)) => {
            assert_eq!(e.kind(), ErrorKind::Incomplete);
            assert_eq!(e.cause(), "channel closed before the write was complete");
            assert_eq!(e.context("path"), Some("/f"));
        }
        other => panic!("{:?}", other),
    }
    assert!(matches!(fut.begin(Received::Empty), WriterPoll::Pending));
}

#[test]
fn waiting_write_fails_only_with_the_upload() {
    let failed = opendal::services::ipfs::transport::failure(ErrorKind::Other, "reset", "write", "/f");
    match RequestWriter::while_waiting::<usize>(Poll::Ready(Err(failed))) {
        Poll::Ready(Err(e)) => assert_eq!(e.cause(), "reset"),
        other => panic!("{:?}", other),
    }
    assert!(matches!(RequestWriter::while_waiting::<usize>(Poll::Ready(Ok(()))), Poll::Pending));
    assert!(matches!(RequestWriter::while_waiting::<()>(Poll::Pending), Poll::Pending));
}

#[test]
fn close_disconnects_the_writer() {
    let mut cx = Context::from_waker(noop_waker_ref());
    let mut w = writer("f");
    assert!(matches!(written(&mut w, b"x"), Poll::Ready(Ok(1))));
    let _upload = upload_of(w.poll_close(&mut cx, None));
    match written(&mut w, b"y") {
        Poll::Ready(Err(e)) => assert_eq!(e.kind(), ErrorKind::Other),
        other => panic!("{:?}", other),
    }
}

#[test]
fn chunk_holds_the_bytes_written() {
    let mut w = writer("f");
    let bytes: Vec<u8> = (0..=255).rev().collect();
    assert!(matches!(written(&mut w, &bytes), Poll::Ready(Ok(256))));
    let mut upload = upload_of(w.poll_response(None));
    assert_eq!(chunk_of(upload.body.pull()).to_vec(), bytes);
}
