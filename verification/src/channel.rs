//! The channel capabilities: a non-blocking byte receiver and a
//! non-blocking message sender, plus in-memory endpoints of both.
//!
//! The two traits abstract the kernel-owned communication channel. Each
//! attempt on them either suspends (the caller re-polls later), completes,
//! or fails with a transport error code. The in-memory endpoints serve and
//! capture bytes from owned buffers, and are verified against the same
//! contracts that outside implementors are asked to meet.

use vstd::prelude::*;

use crate::bytes::{chunk_views, concat_payload, lemma_payload_take_succ};
use crate::header::OutHeader;

verus! {

/// The result of one non-blocking attempt on a channel: not yet ready,
/// or ready with an outcome.
#[derive(Debug)]
pub enum Poll<T> {
    /// The channel could not make progress; the caller re-polls later.
    Pending,
    /// The attempt completed with this outcome.
    Ready(T),
}

/// What can go wrong while framing one message.
#[derive(Clone, Copy, Debug, PartialEq, Eq, Structural)]
pub enum FrameError {
    /// An I/O failure reported by the channel, carrying the platform
    /// error code unchanged.
    Transport(i32),
    /// The channel transferred fewer bytes than the protocol requires;
    /// the current decode aborts and no request is produced.
    ShortRead,
}

/// The receiver half of a channel: one non-blocking attempt to fill the
/// caller's buffer with one inbound transfer's bytes.
///
/// An implementation never changes the buffer's length; on success it
/// reports how many bytes, counted from the front of the buffer, it
/// populated; while suspended it leaves the buffer untouched.
pub trait Reader {
    /// Receive bytes into the front of `buf`, reporting the transferred
    /// count, a transport error code, or suspension.
    fn poll_receive_msg(&mut self, buf: &mut Vec<u8>) -> (r: Poll<Result<usize, i32>>)
        ensures
            final(buf)@.len() == old(buf)@.len(),
            r matches Poll::Ready(Ok(n)) ==> n <= old(buf)@.len(),
            r is Pending ==> final(buf)@ == old(buf)@,
    ;
}

/// The sender half of a channel: one non-blocking attempt to transmit a
/// response header followed by the payload chunks, in order, as one
/// logical unit. An attempt either transmits the whole message or fails
/// without a partial-write recovery path; this layer never retries
/// across chunks.
pub trait Writer {
    /// The bytes this sender has transmitted so far, in transmission
    /// order: the spec-level model that the send contract is stated
    /// over. A sender with no byte-level model of its own may leave the
    /// default, an always-empty history, and then never report success.
    open spec fn transmitted(&self) -> Seq<u8> {
        Seq::empty()
    }

    /// Transmit `header` followed by every chunk of `payload`, in
    /// order. A successful attempt appends exactly the header's wire
    /// bytes and then the chunks' bytes to what was transmitted; a
    /// suspended attempt transmits nothing; a failed attempt leaves no
    /// defined partial-write state behind.
    fn poll_write_msg(&mut self, header: &OutHeader, payload: &Vec<Vec<u8>>) -> (r: Poll<
        Result<(), i32>,
    >)
        ensures
            r matches Poll::Ready(Ok(u)) ==> final(self).transmitted() == old(self).transmitted()
                + header.spec_bytes() + concat_payload(chunk_views(payload@)),
            r is Pending ==> final(self).transmitted() == old(self).transmitted(),
    ;
}

/// A one-shot receive of a single inbound transfer into a
/// caller-supplied buffer, independent of the request decoder: the
/// operation owns the destination across suspensions and hands it back
/// once the channel is ready.
#[derive(Debug)]
#[must_use]
pub struct ReceiveMsg {
    /// The destination buffer; its length is the fill target.
    pub buf: Vec<u8>,
}

impl ReceiveMsg {
    /// Starts a receive into the given destination.
    pub fn new(buf: Vec<u8>) -> (r: ReceiveMsg)
        ensures
            r.buf@ == buf@,
    {
        ReceiveMsg { buf }
    }

    /// One attempt to fill the destination from `reader`.
    pub fn poll<R: Reader>(&mut self, reader: &mut R) -> (r: Poll<Result<usize, i32>>)
        ensures
            final(self).buf@.len() == old(self).buf@.len(),
            r matches Poll::Ready(Ok(n)) ==> n <= old(self).buf@.len(),
            r is Pending ==> final(self).buf@ == old(self).buf@,
    {
        reader.poll_receive_msg(&mut self.buf)
    }

    /// Hands the destination back once the receive is over.
    pub fn into_buf(self) -> (r: Vec<u8>)
        ensures
            r@ == self.buf@,
    {
        self.buf
    }
}

/// A receiver that serves a fixed script of transfer segments from
/// memory: each receive delivers the next segment, truncated to the
/// destination's length, and a receive past the last segment transfers
/// zero bytes.
#[derive(Debug)]
pub struct MemReader {
    /// The transfer segments, one per receive attempt.
    pub segments: Vec<Vec<u8>>,
    /// How many receive attempts have completed.
    pub next: usize,
}

impl MemReader {
    /// Builds a receiver over the given transfer segments.
    pub fn new(segments: Vec<Vec<u8>>) -> (r: MemReader)
        ensures
            r.segments@ == segments@,
            r.next == 0,
    {
        MemReader { segments, next: 0 }
    }

    /// Returns how many receive attempts have completed.
    pub fn position(&self) -> (r: usize)
        ensures
            r == self.next,
    {
        self.next
    }

    /// Copies the next segment into the front of `buf` and reports the
    /// copied count; past the last segment it transfers zero bytes.
    pub fn receive_into(&mut self, buf: &mut Vec<u8>) -> (r: Poll<Result<usize, i32>>)
        ensures
            final(self).segments@ == old(self).segments@,
            final(buf)@.len() == old(buf)@.len(),
            old(self).next >= old(self).segments@.len() ==> (final(self).next == old(self).next
                && final(buf)@ == old(buf)@ && r == Poll::Ready(Result::<usize, i32>::Ok(0))),
            old(self).next < old(self).segments@.len() ==> (
            {
                let seg = old(self).segments@[old(self).next as int]@;
                let n: int = if seg.len() <= old(buf)@.len() {
                    seg.len() as int
                } else {
                    old(buf)@.len() as int
                };
                &&& final(self).next == old(self).next + 1
                &&& r == Poll::Ready(Result::<usize, i32>::Ok(n as usize))
                &&& forall|k: int| 0 <= k < n ==> final(buf)@[k] == seg[k]
                &&& forall|k: int| n <= k < old(buf)@.len() ==> final(buf)@[k] == old(buf)@[k]
            }),
    {
        if self.next >= self.segments.len() {
            return Poll::Ready(Ok(0));
        }
        let m: usize = self.segments[self.next].len();
        let cap: usize = buf.len();
        let n: usize = if m <= cap {
            m
        } else {
            cap
        };
        let mut j: usize = 0;
        while j < n
            invariant
                j <= n,
                n <= m,
                n <= cap,
                self == old(self),
                self.next < self.segments@.len(),
                m == self.segments@[self.next as int]@.len(),
                cap == old(buf)@.len(),
                buf@.len() == old(buf)@.len(),
                forall|k: int| 0 <= k < j ==> buf@[k] == self.segments@[self.next as int]@[k],
                forall|k: int| j <= k < old(buf)@.len() ==> buf@[k] == old(buf)@[k],
            decreases n - j,
        {
            let v: u8 = self.segments[self.next][j];
            buf[j] = v;
            j = j + 1;
        }
        self.next = self.next + 1;
        Poll::Ready(Ok(n))
    }
}

impl Reader for MemReader {
    fn poll_receive_msg(&mut self, buf: &mut Vec<u8>) -> (r: Poll<Result<usize, i32>>) {
        self.receive_into(buf)
    }
}

/// A reference to a receiver is itself a receiver, so one underlying
/// channel can be reused across independent operations without giving
/// up ownership.
impl<R: Reader> Reader for &mut R {
    fn poll_receive_msg(&mut self, buf: &mut Vec<u8>) -> (r: Poll<Result<usize, i32>>) {
        (**self).poll_receive_msg(buf)
    }
}

/// A reference to a sender is itself a sender, in the same way.
impl<W: Writer> Writer for &mut W {
    open spec fn transmitted(&self) -> Seq<u8> {
        (**self).transmitted()
    }

    fn poll_write_msg(&mut self, header: &OutHeader, payload: &Vec<Vec<u8>>) -> (r: Poll<
        Result<(), i32>,
    >) {
        (**self).poll_write_msg(header, payload)
    }
}

/// A sender that captures every transmitted message into one owned byte
/// buffer, header first, then the chunks in order.
#[derive(Debug)]
pub struct MemWriter {
    /// Everything transmitted so far, in transmission order.
    pub bytes: Vec<u8>,
}

impl MemWriter {
    /// Builds a sender with nothing transmitted yet.
    pub fn new() -> (r: MemWriter)
        ensures
            r.bytes@ == Seq::<u8>::empty(),
    {
        MemWriter { bytes: Vec::new() }
    }

    /// Appends one whole message: the header's wire bytes, then every
    /// payload chunk, in order.
    pub fn push_msg(&mut self, header: &OutHeader, payload: &Vec<Vec<u8>>)
        ensures
            final(self).bytes@ == old(self).bytes@ + header.spec_bytes() + concat_payload(
                chunk_views(payload@),
            ),
    {
        let mut hb = header.as_bytes();
        self.bytes.append(&mut hb);
        let ghost chunks: Seq<Seq<u8>> = chunk_views(payload@);
        let mut i: usize = 0;
        while i < payload.len()
            invariant
                i <= payload@.len(),
                chunks == chunk_views(payload@),
                self.bytes@ == old(self).bytes@ + header.spec_bytes() + concat_payload(
                    chunks.take(i as int),
                ),
            decreases payload@.len() - i,
        {
            let ghost before = self.bytes@;
            let mut j: usize = 0;
            while j < payload[i].len()
                invariant
                    i < payload@.len(),
                    j <= payload@[i as int]@.len(),
                    self.bytes@ == before + payload@[i as int]@.take(j as int),
                decreases payload@[i as int]@.len() - j,
            {
                let v: u8 = payload[i][j];
                self.bytes.push(v);
                assert(self.bytes@ =~= before + payload@[i as int]@.take(j + 1));
                j = j + 1;
            }
            proof {
                let ci = i as int;
                assert(payload@[ci]@.take(payload@[ci]@.len() as int) =~= payload@[ci]@);
                lemma_payload_take_succ(chunks, ci);
            }
            i = i + 1;
        }
        proof {
            assert(chunks.take(payload@.len() as int) =~= chunks);
        }
    }
}

impl Writer for MemWriter {
    open spec fn transmitted(&self) -> Seq<u8> {
        self.bytes@
    }

    fn poll_write_msg(&mut self, header: &OutHeader, payload: &Vec<Vec<u8>>) -> (r: Poll<
        Result<(), i32>,
    >) {
        self.push_msg(header, payload);
        Poll::Ready(Ok(()))
    }
}

} // verus!
