//! The resumable request decoder.
//!
//! A decode runs the state machine `Init -> ReadingHeader -> ReadingArg
//! -> Done`: it receives the fixed header record, sizes the argument
//! buffer from it, receives the argument bytes, and yields a complete
//! request. Either receive may suspend, and the machine's fields capture
//! all progress across suspensions; any short transfer aborts the decode
//! with no request produced and nothing left in the argument buffer.

use vstd::prelude::*;

use crate::bytes::zeroed_vec;
use crate::channel::{FrameError, Poll, Reader};
use crate::header::{InHeader, IN_HEADER_LEN};
use crate::opcode::Opcode;

verus! {

/// A complete request message: its header and its argument section,
/// exactly `arg_len` bytes, owned by the request.
#[derive(Debug)]
pub struct Request {
    /// The fixed header record.
    pub header: InHeader,
    /// The argument bytes that followed the header on the wire.
    pub arg: Vec<u8>,
}

impl Request {
    /// A decoded request always carries exactly the argument bytes its
    /// header calls for.
    pub open spec fn wf(self) -> bool {
        &&& self.header.wf()
        &&& self.arg@.len() == self.header.spec_arg_len()
    }

    /// Returns the header part of the request.
    pub fn header(&self) -> (r: &InHeader)
        ensures
            *r == self.header,
    {
        &self.header
    }

    /// Returns the argument section of the request, for the argument
    /// interpreter downstream of this layer.
    pub fn arg(&self) -> (r: &Vec<u8>)
        ensures
            *r == self.arg,
    {
        &self.arg
    }
}

/// Decides what one receive outcome means for the decode, ahead of the
/// stage's own completeness check: a suspension stays a suspension, a
/// channel failure surfaces as a transport error carrying the channel's
/// own code unchanged, and a transferred count is handed on.
pub fn receive_outcome(outcome: Poll<Result<usize, i32>>) -> (r: Poll<Result<usize, FrameError>>)
    ensures
        outcome is Pending ==> r is Pending,
        outcome matches Poll::Ready(Err(code)) ==> r == Poll::Ready(
            Result::<usize, FrameError>::Err(FrameError::Transport(code)),
        ),
        outcome matches Poll::Ready(Ok(n)) ==> r == Poll::Ready(
            Result::<usize, FrameError>::Ok(n),
        ),
{
    match outcome {
        Poll::Pending => Poll::Pending,
        Poll::Ready(Err(code)) => Poll::Ready(Err(FrameError::Transport(code))),
        Poll::Ready(Ok(n)) => Poll::Ready(Ok(n)),
    }
}

/// Decides the whole header acceptance. A header is accepted exactly
/// when the transfer filled the full record and the record's `length`
/// field leaves room for an argument section; a shorter transfer, or a
/// `length` field that claims less than the header record itself under
/// an opcode without a fixed prefix, aborts the decode as a short read.
pub fn header_received(bytes: Vec<u8>, count: usize) -> (r: Result<InHeader, FrameError>)
    requires
        bytes@.len() == IN_HEADER_LEN,
        count <= IN_HEADER_LEN,
    ensures
        (count == IN_HEADER_LEN && (InHeader { bytes }).spec_arg_len() >= 0) ==> (r matches Ok(h)
            && h.bytes@ == bytes@),
        (count == IN_HEADER_LEN && (InHeader { bytes }).spec_arg_len() < 0) ==> r == Err::<
            InHeader,
            FrameError,
        >(FrameError::ShortRead),
        count < IN_HEADER_LEN ==> r == Err::<InHeader, FrameError>(FrameError::ShortRead),
{
    if count < IN_HEADER_LEN {
        return Err(FrameError::ShortRead);
    }
    let h = InHeader::from_bytes(bytes);
    let sized: bool = match h.opcode() {
        Some(Opcode::Write) => true,
        Some(Opcode::NotifyReply) => true,
        _ => h.len() as usize >= IN_HEADER_LEN,
    };
    if !sized {
        return Err(FrameError::ShortRead);
    }
    Ok(h)
}

/// Decides the argument receive: success holds exactly when the
/// transfer count filled the whole buffer; on any shorter transfer the
/// buffer's observable length is reset to zero and the decode aborts.
pub fn arg_received(arg: &mut Vec<u8>, count: usize) -> (r: Result<(), FrameError>)
    requires
        count <= old(arg)@.len(),
    ensures
        count == old(arg)@.len() ==> (r is Ok && final(arg)@ == old(arg)@),
        count < old(arg)@.len() ==> (r == Err::<(), FrameError>(FrameError::ShortRead)
            && final(arg)@.len() == 0),
{
    if count < arg.len() {
        arg.clear();
        Err(FrameError::ShortRead)
    } else {
        Ok(())
    }
}

/// Where a decode stands. No transition revisits an earlier state.
#[derive(Clone, Copy, Debug, PartialEq, Eq, Structural)]
pub enum ReadRequestState {
    /// Nothing received yet; the header record is about to be set up.
    Init,
    /// The header record is allocated and being received.
    ReadingHeader,
    /// The header is complete and the argument section is being
    /// received.
    ReadingArg,
    /// The decode finished, successfully or not; re-polling it is a
    /// contract violation.
    Done,
}

/// One in-flight request decode. Each decode owns its buffers; nothing
/// is shared between concurrently active decodes, and dropping one at a
/// suspension point is always safe.
#[derive(Debug)]
pub struct ReadRequest {
    /// The header record being filled while in `ReadingHeader`,
    /// zero-initialized before any bytes are copied into it.
    pub header_buf: Vec<u8>,
    /// The completed header, from `ReadingArg` on.
    pub header: Option<InHeader>,
    /// The argument buffer; between polls its observable length is
    /// always zero.
    pub arg: Option<Vec<u8>>,
    /// Where the decode stands.
    pub state: ReadRequestState,
}

impl ReadRequest {
    /// The argument buffer's externally observable length.
    pub open spec fn arg_obs_len(self) -> nat {
        match self.arg {
            Some(a) => a@.len(),
            None => 0,
        }
    }

    /// Whether the decode has finished.
    pub open spec fn is_done(self) -> bool {
        self.state is Done
    }

    /// What each state guarantees of the machine's fields.
    pub open spec fn wf(self) -> bool {
        match self.state {
            ReadRequestState::Init => self.header is None && self.arg is None,
            ReadRequestState::ReadingHeader => self.header_buf@.len() == IN_HEADER_LEN
                && self.header is None && self.arg is None,
            ReadRequestState::ReadingArg => match (self.header, self.arg) {
                (Some(h), Some(a)) => h.wf() && 0 <= h.spec_arg_len() <= u32::MAX as int
                    && a@.len() == 0,
                _ => false,
            },
            ReadRequestState::Done => true,
        }
    }

    /// Starts a fresh decode.
    pub fn new() -> (r: ReadRequest)
        ensures
            r.wf(),
            r.state is Init,
            r.arg_obs_len() == 0,
    {
        ReadRequest {
            header_buf: Vec::new(),
            header: None,
            arg: None,
            state: ReadRequestState::Init,
        }
    }

    /// Drives the decode one step: receives the header and then the
    /// argument section from `reader`, suspending whenever the channel
    /// is not ready. A completed decode yields a request whose argument
    /// length equals exactly what its header calls for; any failure
    /// aborts the decode with the argument buffer observably empty.
    pub fn poll<R: Reader>(&mut self, reader: &mut R) -> (r: Poll<Result<Request, FrameError>>)
        requires
            old(self).wf(),
            !old(self).is_done(),
        ensures
            final(self).wf(),
            r is Pending ==> !final(self).is_done() && final(self).arg_obs_len() == 0,
            r is Pending ==> (final(self).state is ReadingHeader
                || final(self).state is ReadingArg),
            (r is Pending && old(self).state is ReadingArg) ==> (final(self).state is ReadingArg
                && final(self).header == old(self).header),
            r matches Poll::Ready(res) ==> final(self).is_done(),
            r matches Poll::Ready(Ok(req)) ==> (req.wf() && req.arg@.len()
                == req.header.spec_arg_len() && final(self).arg_obs_len() == 0),
            r matches Poll::Ready(Err(e)) ==> final(self).arg_obs_len() == 0,
            r matches Poll::Ready(Ok(req)) ==> (old(self).state is ReadingArg ==> Some(req.header)
                == old(self).header),
    {
        if matches!(self.state, ReadRequestState::Init) {
            self.header_buf = zeroed_vec(IN_HEADER_LEN);
            self.state = ReadRequestState::ReadingHeader;
        }
        if matches!(self.state, ReadRequestState::ReadingHeader) {
            match receive_outcome(reader.poll_receive_msg(&mut self.header_buf)) {
                Poll::Pending => {
                    return Poll::Pending;
                },
                Poll::Ready(Err(e)) => {
                    self.state = ReadRequestState::Done;
                    return Poll::Ready(Err(e));
                },
                Poll::Ready(Ok(count)) => {
                    let mut taken: Vec<u8> = Vec::new();
                    core::mem::swap(&mut taken, &mut self.header_buf);
                    match header_received(taken, count) {
                        Err(e) => {
                            self.state = ReadRequestState::Done;
                            return Poll::Ready(Err(e));
                        },
                        Ok(h) => {
                            self.header = Some(h);
                            self.arg = Some(Vec::new());
                            self.state = ReadRequestState::ReadingArg;
                        },
                    }
                },
            }
        }
        if matches!(self.state, ReadRequestState::ReadingArg) {
            let need: usize = match &self.header {
                Some(h) => h.arg_len(),
                None => {
                    proof {
                        assert(false);
                    }
                    vstd::pervasive::unreached()
                },
            };
            let mut a = zeroed_vec(need);
            match receive_outcome(reader.poll_receive_msg(&mut a)) {
                Poll::Pending => {
                    return Poll::Pending;
                },
                Poll::Ready(Err(e)) => {
                    self.state = ReadRequestState::Done;
                    self.arg = None;
                    return Poll::Ready(Err(e));
                },
                Poll::Ready(Ok(count)) => {
                    match arg_received(&mut a, count) {
                        Err(e) => {
                            self.state = ReadRequestState::Done;
                            self.arg = None;
                            return Poll::Ready(Err(e));
                        },
                        Ok(()) => {
                            self.state = ReadRequestState::Done;
                            self.arg = None;
                            let h: InHeader = match self.header.take() {
                                Some(h) => h,
                                None => {
                                    proof {
                                        assert(false);
                                    }
                                    vstd::pervasive::unreached()
                                },
                            };
                            return Poll::Ready(Ok(Request { header: h, arg: a }));
                        },
                    }
                },
            }
        }
        proof {
            assert(false);
        }
        vstd::pervasive::unreached()
    }
}

/// Decoding is deterministic: two requests decoded from identical byte
/// streams, the same header bytes and the same argument bytes, are
/// structurally identical in every observable field.
pub proof fn lemma_decode_deterministic(r1: Request, r2: Request)
    requires
        r1.header.bytes@ == r2.header.bytes@,
        r1.arg@ == r2.arg@,
    ensures
        r1.header.spec_len() == r2.header.spec_len(),
        r1.header.spec_opcode() == r2.header.spec_opcode(),
        r1.header.spec_unique() == r2.header.spec_unique(),
        r1.header.spec_nodeid() == r2.header.spec_nodeid(),
        r1.header.spec_uid() == r2.header.spec_uid(),
        r1.header.spec_gid() == r2.header.spec_gid(),
        r1.header.spec_pid() == r2.header.spec_pid(),
        r1.header.spec_arg_len() == r2.header.spec_arg_len(),
        r1.arg@ == r2.arg@,
{
}

} // verus!
