//! The response encoder: a one-shot framer that transmits one header
//! followed by the caller's payload chunks.
//!
//! `send_msg` computes `length = OUT_HEADER_LEN + the sum of the chunk lengths`, builds
//! the response header from `(unique, error, length)`, and issues one
//! transmission of the header followed by the chunks, in order, with no
//! interleaving. A length beyond the header field's range is a contract
//! violation of the caller, not a runtime error, and is ruled out by
//! precondition.

use vstd::prelude::*;

use crate::bytes::{
    chunk_views, concat_payload, lemma_payload_take_le, lemma_payload_take_succ,
    lemma_payload_total_nonneg, payload_total,
};
use crate::channel::{FrameError, Poll, Writer};
use crate::header::{OutHeader, OUT_HEADER_LEN};

verus! {

/// Sums the payload chunk lengths.
pub fn payload_len(data: &Vec<Vec<u8>>) -> (r: usize)
    requires
        OUT_HEADER_LEN + payload_total(chunk_views(data@)) <= u32::MAX as int,
    ensures
        r == payload_total(chunk_views(data@)),
{
    let ghost chunks = chunk_views(data@);
    let mut acc: usize = 0;
    let mut i: usize = 0;
    while i < data.len()
        invariant
            i <= data@.len(),
            chunks == chunk_views(data@),
            OUT_HEADER_LEN + payload_total(chunks) <= u32::MAX as int,
            acc == payload_total(chunks.take(i as int)),
        decreases data@.len() - i,
    {
        proof {
            lemma_payload_take_succ(chunks, i as int);
            lemma_payload_take_le(chunks, i as int + 1);
            lemma_payload_total_nonneg(chunks);
        }
        acc = acc + data[i].len();
        i = i + 1;
    }
    proof {
        assert(chunks.take(data@.len() as int) =~= chunks);
    }
    acc
}

/// Builds the header of a response that carries the given payload:
/// `length` is the header size plus the total payload bytes, and
/// `unique` and `error` are taken as given.
pub fn response_header(unique: u64, error: i32, data: &Vec<Vec<u8>>) -> (h: OutHeader)
    requires
        OUT_HEADER_LEN + payload_total(chunk_views(data@)) <= u32::MAX as int,
    ensures
        h.unique == unique,
        h.error == error,
        h.len as int == OUT_HEADER_LEN + payload_total(chunk_views(data@)),
{
    let total = payload_len(data);
    let len: u32 = (OUT_HEADER_LEN + total) as u32;
    OutHeader::new(unique, error, len)
}

/// Decides what one transmission outcome means for the send: a
/// suspension stays a suspension, a channel failure surfaces as a
/// transport error carrying the sender's own code unchanged, and a
/// completed transmission yields the header that went out as the
/// observability record of the reply.
pub fn send_outcome(outcome: Poll<Result<(), i32>>, header: OutHeader) -> (r: Poll<
    Result<OutHeader, FrameError>,
>)
    ensures
        outcome is Pending ==> r is Pending,
        outcome matches Poll::Ready(Err(code)) ==> r == Poll::Ready(
            Result::<OutHeader, FrameError>::Err(FrameError::Transport(code)),
        ),
        outcome matches Poll::Ready(Ok(u)) ==> r == Poll::Ready(
            Result::<OutHeader, FrameError>::Ok(header),
        ),
{
    match outcome {
        Poll::Pending => Poll::Pending,
        Poll::Ready(Err(code)) => Poll::Ready(Err(FrameError::Transport(code))),
        Poll::Ready(Ok(())) => Poll::Ready(Ok(header)),
    }
}

/// Sends one response or notification message: the header built from
/// `(unique, error, length)`, then the chunks of `data`, in order, as
/// one transmission. Suspension happens exactly at the transmission
/// call; there is no partial-message state to resume, so a suspended
/// send is simply issued again. On success the header that went out is
/// returned, its wire bytes and the chunks' bytes now transmitted in
/// order; on failure the sender's transport error is surfaced
/// unchanged.
pub fn send_msg<W: Writer>(writer: &mut W, unique: u64, error: i32, data: &Vec<Vec<u8>>) -> (r:
    Poll<Result<OutHeader, FrameError>>)
    requires
        OUT_HEADER_LEN + payload_total(chunk_views(data@)) <= u32::MAX as int,
    ensures
        r matches Poll::Ready(Ok(h)) ==> (h.unique == unique && h.error == error && h.len as int
            == OUT_HEADER_LEN + payload_total(chunk_views(data@))),
        r matches Poll::Ready(Ok(h)) ==> (*final(writer)).transmitted() == (*old(
            writer,
        )).transmitted() + h.spec_bytes() + concat_payload(chunk_views(data@)),
        r is Pending ==> (*final(writer)).transmitted() == (*old(writer)).transmitted(),
        r matches Poll::Ready(Err(e)) ==> e is Transport,
{
    let header = response_header(unique, error, data);
    let outcome = writer.poll_write_msg(&header, data);
    send_outcome(outcome, header)
}

} // verus!
