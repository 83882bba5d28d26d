use ws_gio::adapter::{deliver, IOStream, IOStreamAsyncReadWrite, InputStream, OutputStream, Poll};
use ws_gio::error::IoErrorKind;

fn leg_in(pollable: bool) -> InputStream {
    InputStream { pollable, buffered: Vec::new(), eof: false }
}

fn leg_out(pollable: bool) -> OutputStream {
    OutputStream { pollable, pending: Vec::new(), sent: Vec::new(), closed: false }
}

fn pollable_stream() -> IOStream {
    IOStream { input: leg_in(true), output: leg_out(true) }
}

#[test]
fn adapt_succeeds_when_both_legs_pollable() {
    let stream = pollable_stream();
    assert!(IOStreamAsyncReadWrite::new(stream).is_ok());
}

#[test]
fn adapt_failure_returns_original_unchanged() {
    let mut stream = pollable_stream();
    stream.input.pollable = false;
    stream.input.buffered = vec![9, 8, 7];
    let original = stream.clone();
    match IOStreamAsyncReadWrite::new(stream) {
        Ok(_) => panic!("adaptation must fail without the pollable capability"),
        Err(returned) => assert_eq!(returned, original),
    }

    let mut stream = pollable_stream();
    stream.output.pollable = false;
    let original = stream.clone();
    match IOStreamAsyncReadWrite::new(stream) {
        Ok(_) => panic!("adaptation must fail without the pollable capability"),
        Err(returned) => assert_eq!(returned, original),
    }
}

#[test]
fn write_flush_deliver_read_round_trip() {
    let mut a = IOStreamAsyncReadWrite::new(pollable_stream()).unwrap();
    let mut b = IOStreamAsyncReadWrite::new(pollable_stream()).unwrap();

    match a.poll_write(&[10, 20, 30]) {
        Poll::Ready(Ok(n)) => assert_eq!(n, 3),
        _ => panic!("write on an open leg must complete"),
    }
    match a.poll_flush() {
        Poll::Ready(Ok(())) => {}
        _ => panic!("flush must complete"),
    }
    deliver(&mut a, &mut b);
    match b.poll_read(1024) {
        Poll::Ready(bytes) => assert_eq!(bytes, vec![10, 20, 30]),
        Poll::Pending => panic!("delivered bytes must be readable"),
    }
    // the channel is drained afterwards
    assert!(matches!(b.poll_read(1024), Poll::Pending));
}

#[test]
fn unflushed_bytes_are_not_delivered() {
    let mut a = IOStreamAsyncReadWrite::new(pollable_stream()).unwrap();
    let mut b = IOStreamAsyncReadWrite::new(pollable_stream()).unwrap();

    assert!(matches!(a.poll_write(&[1]), Poll::Ready(Ok(1))));
    deliver(&mut a, &mut b);
    assert!(matches!(b.poll_read(16), Poll::Pending));
}

#[test]
fn read_suspends_on_empty_open_input() {
    let mut a = IOStreamAsyncReadWrite::new(pollable_stream()).unwrap();
    assert!(matches!(a.poll_read(1), Poll::Pending));
}

#[test]
fn read_reports_end_of_data_with_zero_bytes() {
    let mut stream = pollable_stream();
    stream.input.eof = true;
    let mut a = IOStreamAsyncReadWrite::new(stream).unwrap();
    match a.poll_read(8) {
        Poll::Ready(bytes) => assert!(bytes.is_empty()),
        Poll::Pending => panic!("end of data must complete the read"),
    }
}

#[test]
fn short_buffer_reads_a_prefix_and_keeps_the_rest() {
    let mut stream = pollable_stream();
    stream.input.buffered = vec![1, 2, 3];
    let mut a = IOStreamAsyncReadWrite::new(stream).unwrap();
    match a.poll_read(2) {
        Poll::Ready(bytes) => assert_eq!(bytes, vec![1, 2]),
        Poll::Pending => panic!("buffered bytes must complete the read"),
    }
    match a.poll_read(2) {
        Poll::Ready(bytes) => assert_eq!(bytes, vec![3]),
        Poll::Pending => panic!("remaining byte must complete the read"),
    }
}

#[test]
fn close_flushes_and_rejects_later_writes() {
    let mut a = IOStreamAsyncReadWrite::new(pollable_stream()).unwrap();
    let mut b = IOStreamAsyncReadWrite::new(pollable_stream()).unwrap();

    assert!(matches!(a.poll_write(&[5, 6]), Poll::Ready(Ok(2))));
    assert!(matches!(a.poll_close(), Poll::Ready(Ok(()))));
    // the close implicitly flushed the accepted bytes
    deliver(&mut a, &mut b);
    match b.poll_read(4) {
        Poll::Ready(bytes) => assert_eq!(bytes, vec![5, 6]),
        Poll::Pending => panic!("bytes flushed by the close must be readable"),
    }
    // any subsequent write fails
    match a.poll_write(&[7]) {
        Poll::Ready(Err(kind)) => assert_eq!(kind, IoErrorKind::Closed),
        _ => panic!("a write after close must fail"),
    }
}

#[test]
fn close_leaves_the_read_leg_drainable() {
    let mut stream = pollable_stream();
    stream.input.buffered = vec![42, 43];
    let mut a = IOStreamAsyncReadWrite::new(stream).unwrap();
    assert!(matches!(a.poll_close(), Poll::Ready(Ok(()))));
    match a.poll_read(16) {
        Poll::Ready(bytes) => assert_eq!(bytes, vec![42, 43]),
        Poll::Pending => panic!("buffered inbound bytes survive a close"),
    }
}
