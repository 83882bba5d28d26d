//! The stream adapter: wraps an owned connection object whose input and
//! output legs are independently pollable primitives, and exposes a
//! single object with asynchronous read, write, flush and close.
//!
//! The connection object is held as plain values: each leg carries its
//! pollable capability, and the bytes it has buffered or accepted.  An
//! operation here models the completion of one poll; the suspension
//! itself (returning `Pending` until the reactor wakes the task) is the
//! outside reactor's business.

use vstd::prelude::*;
use crate::error::IoErrorKind;

verus! {

/// The input leg of a connection: its pollable capability, the bytes
/// buffered for reading, and whether the peer closed its writing side.
#[derive(Clone, Debug, PartialEq, Eq)]
pub struct InputStream {
    pub pollable: bool,
    pub buffered: Vec<u8>,
    pub eof: bool,
}

/// Abstract value of an input leg.
pub ghost struct InputStreamView {
    pub pollable: bool,
    pub buffered: Seq<u8>,
    pub eof: bool,
}

impl View for InputStream {
    type V = InputStreamView;

    open spec fn view(&self) -> InputStreamView {
        InputStreamView { pollable: self.pollable, buffered: self.buffered@, eof: self.eof }
    }
}

/// The output leg of a connection: its pollable capability, the bytes
/// accepted but not yet confirmed sent, the bytes confirmed sent to the
/// transport, and whether it has been closed.
#[derive(Clone, Debug, PartialEq, Eq)]
pub struct OutputStream {
    pub pollable: bool,
    pub pending: Vec<u8>,
    pub sent: Vec<u8>,
    pub closed: bool,
}

/// Abstract value of an output leg.
pub ghost struct OutputStreamView {
    pub pollable: bool,
    pub pending: Seq<u8>,
    pub sent: Seq<u8>,
    pub closed: bool,
}

impl View for OutputStream {
    type V = OutputStreamView;

    open spec fn view(&self) -> OutputStreamView {
        OutputStreamView {
            pollable: self.pollable,
            pending: self.pending@,
            sent: self.sent@,
            closed: self.closed,
        }
    }
}

/// An owned bidirectional connection object, exposing an input leg and
/// an output leg that are independently queryable for the pollable
/// capability.
#[derive(Clone, Debug, PartialEq, Eq)]
pub struct IOStream {
    pub input: InputStream,
    pub output: OutputStream,
}

/// Abstract value of a connection object.
pub ghost struct IOStreamView {
    pub input: InputStreamView,
    pub output: OutputStreamView,
}

impl View for IOStream {
    type V = IOStreamView;

    open spec fn view(&self) -> IOStreamView {
        IOStreamView { input: self.input@, output: self.output@ }
    }
}

/// A connection can be adapted exactly when both of its legs support
/// the pollable capability.
pub open spec fn spec_adaptable(s: IOStreamView) -> bool {
    s.input.pollable && s.output.pollable
}

/// One poll outcome: either the operation completed, or the task would
/// suspend until the reactor reports readiness.
#[derive(Clone, Copy, Debug, PartialEq, Eq)]
pub enum Poll<T> {
    Ready(T),
    Pending,
}

/// How many bytes a read with room for `max` bytes returns.
pub open spec fn spec_read_len(s: IOStreamView, max: nat) -> nat {
    if s.input.buffered.len() <= max {
        s.input.buffered.len()
    } else {
        max
    }
}

/// The connection after a completed read with room for `max` bytes.
pub open spec fn spec_after_read(s: IOStreamView, max: nat) -> IOStreamView {
    IOStreamView {
        input: InputStreamView {
            buffered: s.input.buffered.skip(spec_read_len(s, max) as int),
            ..s.input
        },
        ..s
    }
}

/// Whether the output leg still accepts writes.
pub open spec fn spec_write_accepts(s: IOStreamView) -> bool {
    !s.output.closed
}

/// The connection after a completed write of `data`.
pub open spec fn spec_after_write(s: IOStreamView, data: Seq<u8>) -> IOStreamView {
    IOStreamView {
        output: OutputStreamView { pending: s.output.pending + data, ..s.output },
        ..s
    }
}

/// The connection after a completed flush: every accepted byte is
/// confirmed sent to the transport.
pub open spec fn spec_after_flush(s: IOStreamView) -> IOStreamView {
    IOStreamView {
        output: OutputStreamView {
            pending: Seq::empty(),
            sent: s.output.sent + s.output.pending,
            ..s.output
        },
        ..s
    }
}

/// The connection after a completed close of the output leg: the close
/// implicitly flushes, and no further write is accepted.  The input leg
/// is unaffected.
pub open spec fn spec_after_close(s: IOStreamView) -> IOStreamView {
    IOStreamView {
        output: OutputStreamView {
            pending: Seq::empty(),
            sent: s.output.sent + s.output.pending,
            closed: true,
            ..s.output
        },
        ..s
    }
}

/// The two connections after the transport delivers one side's
/// confirmed-sent bytes to the peer's input leg.
pub open spec fn spec_after_deliver(src: IOStreamView, dst: IOStreamView) -> (IOStreamView, IOStreamView) {
    (
        IOStreamView {
            output: OutputStreamView { sent: Seq::empty(), ..src.output },
            ..src
        },
        IOStreamView {
            input: InputStreamView {
                buffered: dst.input.buffered + src.output.sent,
                ..dst.input
            },
            ..dst
        },
    )
}

/// Adapter for a connection object: a single object implementing
/// asynchronous read and write, delegating each operation to the
/// corresponding leg.  It owns the connection; the asynchronous views
/// of the legs are the legs themselves, each single-owner.
#[derive(Debug)]
pub struct IOStreamAsyncReadWrite {
    io_stream: IOStream,
}

/// Type alias for the stream type that a connect attempt produces.
pub type ConnectStream = IOStreamAsyncReadWrite;

impl View for IOStreamAsyncReadWrite {
    type V = IOStreamView;

    closed spec fn view(&self) -> IOStreamView {
        self.io_stream@
    }
}

impl IOStreamAsyncReadWrite {
    /// Once constructed, both legs of the wrapped connection support
    /// the pollable capability.
    pub open spec fn wf(&self) -> bool {
        spec_adaptable(self@)
    }

    /// Create a new adapter over an owned connection object.
    ///
    /// Succeeds exactly when both legs support the pollable capability;
    /// otherwise the original connection object is returned unconsumed,
    /// so a failed adaptation never destroys the caller's resource.
    pub fn new(stream: IOStream) -> (r: Result<IOStreamAsyncReadWrite, IOStream>)
        ensures
            spec_adaptable(stream@) ==> (r matches Ok(a) && a@ == stream@ && a.wf()),
            !spec_adaptable(stream@) ==> (r matches Err(s) && s == stream),
    {
        if stream.input.pollable && stream.output.pollable {
            Ok(IOStreamAsyncReadWrite { io_stream: stream })
        } else {
            Err(stream)
        }
    }

    /// One read poll with room for `max` bytes.
    ///
    /// Completes with at least one byte when the input leg has any
    /// buffered, with zero bytes when the peer closed its writing side
    /// and nothing is left, and would suspend otherwise.
    pub fn poll_read(&mut self, max: usize) -> (r: Poll<Vec<u8>>)
        requires
            max >= 1,
        ensures
            old(self)@.input.buffered.len() == 0 && !old(self)@.input.eof ==> (
                r matches Poll::Pending && final(self)@ == old(self)@
            ),
            old(self)@.input.buffered.len() == 0 && old(self)@.input.eof ==> (
                r matches Poll::Ready(v) && v@.len() == 0 && final(self)@ == old(self)@
            ),
            old(self)@.input.buffered.len() > 0 ==> (
                r matches Poll::Ready(v)
                    && v@ == old(self)@.input.buffered.take(
                        spec_read_len(old(self)@, max as nat) as int,
                    )
                    && v@.len() >= 1
                    && final(self)@ == spec_after_read(old(self)@, max as nat)
            ),
    {
        let available = self.io_stream.input.buffered.len();
        if available == 0 {
            if self.io_stream.input.eof {
                Poll::Ready(Vec::new())
            } else {
                Poll::Pending
            }
        } else {
            let n = if available <= max { available } else { max };
            let mut out: Vec<u8> = Vec::new();
            let mut i: usize = 0;
            while i < n
                invariant
                    i <= n,
                    n <= self.io_stream.input.buffered.len(),
                    out@ == self.io_stream.input.buffered@.take(i as int),
                decreases n - i,
            {
                out.push(self.io_stream.input.buffered[i]);
                proof {
                    assert(out@ =~= self.io_stream.input.buffered@.take(i + 1));
                }
                i = i + 1;
            }
            let mut rest: Vec<u8> = Vec::new();
            let mut j: usize = n;
            while j < self.io_stream.input.buffered.len()
                invariant
                    n <= j <= self.io_stream.input.buffered.len(),
                    rest@ == self.io_stream.input.buffered@.subrange(n as int, j as int),
                decreases self.io_stream.input.buffered.len() - j,
            {
                rest.push(self.io_stream.input.buffered[j]);
                proof {
                    assert(rest@ =~= self.io_stream.input.buffered@.subrange(n as int, j + 1));
                }
                j = j + 1;
            }
            proof {
                assert(rest@ =~= self.io_stream.input.buffered@.skip(n as int));
            }
            self.io_stream.input.buffered = rest;
            Poll::Ready(out)
        }
    }

    /// One write poll offering `buf`.
    ///
    /// A closed output leg rejects the write; otherwise the leg accepts
    /// the bytes, and the completed count is returned.
    pub fn poll_write(&mut self, buf: &[u8]) -> (r: Poll<Result<usize, IoErrorKind>>)
        ensures
            !spec_write_accepts(old(self)@) ==> (
                r matches Poll::Ready(res) && res matches Err(k) && k == IoErrorKind::Closed
                    && final(self)@ == old(self)@
            ),
            spec_write_accepts(old(self)@) ==> (
                r matches Poll::Ready(res) && res matches Ok(n) && n == buf@.len()
                    && final(self)@ == spec_after_write(old(self)@, buf@)
            ),
    {
        if self.io_stream.output.closed {
            return Poll::Ready(Err(IoErrorKind::Closed));
        }
        let mut i: usize = 0;
        while i < buf.len()
            invariant
                i <= buf@.len(),
                self.io_stream.output.pending@ == old(self).io_stream.output.pending@
                    + buf@.take(i as int),
                self.io_stream.output.sent@ == old(self).io_stream.output.sent@,
                self.io_stream.output.closed == old(self).io_stream.output.closed,
                self.io_stream.output.pollable == old(self).io_stream.output.pollable,
                self.io_stream.input == old(self).io_stream.input,
            decreases buf@.len() - i,
        {
            self.io_stream.output.pending.push(buf[i]);
            proof {
                assert(self.io_stream.output.pending@
                    =~= old(self).io_stream.output.pending@ + buf@.take(i + 1));
            }
            i = i + 1;
        }
        proof {
            assert(buf@.take(buf@.len() as int) =~= buf@);
            assert(self@ =~~= spec_after_write(old(self)@, buf@));
        }
        Poll::Ready(Ok(buf.len()))
    }

    /// One flush poll: completes once every previously accepted byte is
    /// confirmed sent to the transport layer.
    pub fn poll_flush(&mut self) -> (r: Poll<Result<(), IoErrorKind>>)
        ensures
            r matches Poll::Ready(res) && res matches Ok(u) && u == (),
            final(self)@ == spec_after_flush(old(self)@),
    {
        let mut pending: Vec<u8> = Vec::new();
        core::mem::swap(&mut pending, &mut self.io_stream.output.pending);
        self.io_stream.output.sent.append(&mut pending);
        proof {
            assert(self@ =~~= spec_after_flush(old(self)@));
        }
        Poll::Ready(Ok(()))
    }

    /// One close poll on the output leg: implicitly flushes, then
    /// forbids further writes.  The input leg is unaffected and may
    /// still be drained.
    pub fn poll_close(&mut self) -> (r: Poll<Result<(), IoErrorKind>>)
        ensures
            r matches Poll::Ready(res) && res matches Ok(u) && u == (),
            final(self)@ == spec_after_close(old(self)@),
    {
        let mut pending: Vec<u8> = Vec::new();
        core::mem::swap(&mut pending, &mut self.io_stream.output.pending);
        self.io_stream.output.sent.append(&mut pending);
        self.io_stream.output.closed = true;
        proof {
            assert(self@ =~~= spec_after_close(old(self)@));
        }
        Poll::Ready(Ok(()))
    }
}

/// The transport delivering: move the bytes one side has confirmed
/// sent into the peer's input leg.  Models the loopback between two
/// paired connections.
pub fn deliver(src: &mut IOStreamAsyncReadWrite, dst: &mut IOStreamAsyncReadWrite)
    ensures
        final(src)@ == spec_after_deliver(old(src)@, old(dst)@).0,
        final(dst)@ == spec_after_deliver(old(src)@, old(dst)@).1,
{
    let mut sent: Vec<u8> = Vec::new();
    core::mem::swap(&mut sent, &mut src.io_stream.output.sent);
    dst.io_stream.input.buffered.append(&mut sent);
    proof {
        assert(src@ =~~= spec_after_deliver(old(src)@, old(dst)@).0);
        assert(dst@ =~~= spec_after_deliver(old(src)@, old(dst)@).1);
    }
}

/// Adaptation succeeds on every connection whose legs are pollable, and
/// bytes written on one side and flushed are, once the transport
/// delivers them, exactly what a paired read on the peer observes; the
/// peer's buffered input is fully drained by that read.
pub proof fn lemma_round_trip(a: IOStreamView, b: IOStreamView, data: Seq<u8>, max: nat)
    requires
        !a.output.closed,
        a.output.pending.len() == 0,
        a.output.sent.len() == 0,
        b.input.buffered.len() == 0,
        data.len() >= 1,
        max >= data.len(),
    ensures
        ({
            let a2 = spec_after_flush(spec_after_write(a, data));
            let (a3, b1) = spec_after_deliver(a2, b);
            &&& spec_read_len(b1, max) == data.len()
            &&& b1.input.buffered.take(spec_read_len(b1, max) as int) == data
            &&& spec_after_read(b1, max).input.buffered.len() == 0
            &&& a3.output.sent.len() == 0
        }),
{
    let a2 = spec_after_flush(spec_after_write(a, data));
    let (a3, b1) = spec_after_deliver(a2, b);
    assert(a2.output.sent =~= data);
    assert(b1.input.buffered =~= data);
    assert(b1.input.buffered.take(data.len() as int) =~= data);
    assert(spec_after_read(b1, max).input.buffered =~= Seq::<u8>::empty());
}

/// Once a close of the output leg has completed, the output leg no
/// longer accepts writes, while the input leg is exactly as it was, so
/// a subsequent read still drains any already-buffered inbound bytes.
pub proof fn lemma_close_disables_write_not_read(s: IOStreamView)
    ensures
        !spec_write_accepts(spec_after_close(s)),
        spec_after_close(s).input == s.input,
{
}

} // verus!
