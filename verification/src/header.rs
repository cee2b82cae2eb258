//! The fixed-layout header records that prefix every request and
//! response message.
//!
//! A request header is kept as the raw bytes received from the channel,
//! with typed accessors that read each field at its fixed offset in
//! little-endian order; a response header is built from typed fields and
//! exposes itself as the byte sequence that goes on the wire.

use vstd::prelude::*;

use crate::bytes::{
    i32_le_bytes, push_i32_le, push_u32_le, push_u64_le, read_u32_le, read_u64_le, u32_le_at,
    u32_le_bytes, u64_le_at, u64_le_bytes,
};
use crate::opcode::{opcode_of, spec_opcode_of, Opcode};

verus! {

/// The size in bytes of a request header record.
pub const IN_HEADER_LEN: usize = 40;

/// The size in bytes of a response header record.
pub const OUT_HEADER_LEN: usize = 16;

/// The size in bytes of the fixed prefix structure that opens the
/// argument section of a write request; the notify-reply prefix has the
/// same size.
pub const WRITE_IN_LEN: usize = 40;

/// The header part of a request message, byte-for-byte as the kernel
/// laid it out: `length:u32`, `opcode:u32`, `unique:u64`, `nodeid:u64`,
/// `uid:u32`, `gid:u32`, `pid:u32`, then four bytes of padding, all in
/// native (little-endian) order.
#[derive(Debug)]
pub struct InHeader {
    /// The raw header record, exactly `IN_HEADER_LEN` bytes.
    pub bytes: Vec<u8>,
}

impl InHeader {
    /// A header record is well formed when it holds exactly the
    /// kernel's record size.
    pub open spec fn wf(self) -> bool {
        self.bytes@.len() == IN_HEADER_LEN
    }

    /// The `length` field: the total size of the request message.
    pub open spec fn spec_len(self) -> u32 {
        u32_le_at(self.bytes@, 0)
    }

    /// The raw `opcode` field.
    pub open spec fn spec_opcode_raw(self) -> u32 {
        u32_le_at(self.bytes@, 4)
    }

    /// The decoded `opcode` field, `None` for an unrecognized code.
    pub open spec fn spec_opcode(self) -> Option<Opcode> {
        spec_opcode_of(self.spec_opcode_raw())
    }

    /// The `unique` correlation identifier.
    pub open spec fn spec_unique(self) -> u64 {
        u64_le_at(self.bytes@, 8)
    }

    /// The `nodeid` field.
    pub open spec fn spec_nodeid(self) -> u64 {
        u64_le_at(self.bytes@, 16)
    }

    /// The `uid` field.
    pub open spec fn spec_uid(self) -> u32 {
        u32_le_at(self.bytes@, 24)
    }

    /// The `gid` field.
    pub open spec fn spec_gid(self) -> u32 {
        u32_le_at(self.bytes@, 28)
    }

    /// The `pid` field.
    pub open spec fn spec_pid(self) -> u32 {
        u32_le_at(self.bytes@, 32)
    }

    /// The length of the argument section that follows this header: the
    /// fixed write prefix size for the write and notify-reply
    /// operations, and `length - IN_HEADER_LEN` for every other one.
    /// Negative only for a header whose `length` field claims less than
    /// the header record itself.
    pub open spec fn spec_arg_len(self) -> int {
        if self.spec_opcode() == Some(Opcode::Write) || self.spec_opcode() == Some(
            Opcode::NotifyReply,
        ) {
            WRITE_IN_LEN as int
        } else {
            self.spec_len() - IN_HEADER_LEN
        }
    }

    /// Wraps a received header record.
    pub fn from_bytes(bytes: Vec<u8>) -> (h: InHeader)
        requires
            bytes@.len() == IN_HEADER_LEN,
        ensures
            h.bytes@ == bytes@,
            h.wf(),
    {
        InHeader { bytes }
    }

    /// Returns the total size of the request message.
    pub fn len(&self) -> (r: u32)
        requires
            self.wf(),
        ensures
            r == self.spec_len(),
    {
        read_u32_le(&self.bytes, 0)
    }

    /// Returns the operation code, or `None` for a code outside the
    /// closed enumeration.
    pub fn opcode(&self) -> (r: Option<Opcode>)
        requires
            self.wf(),
        ensures
            r == self.spec_opcode(),
    {
        opcode_of(read_u32_le(&self.bytes, 4))
    }

    /// Returns the correlation identifier of the request.
    pub fn unique(&self) -> (r: u64)
        requires
            self.wf(),
        ensures
            r == self.spec_unique(),
    {
        read_u64_le(&self.bytes, 8)
    }

    /// Returns the node identifier the request addresses.
    pub fn nodeid(&self) -> (r: u64)
        requires
            self.wf(),
        ensures
            r == self.spec_nodeid(),
    {
        read_u64_le(&self.bytes, 16)
    }

    /// Returns the user id of the calling process.
    pub fn uid(&self) -> (r: u32)
        requires
            self.wf(),
        ensures
            r == self.spec_uid(),
    {
        read_u32_le(&self.bytes, 24)
    }

    /// Returns the group id of the calling process.
    pub fn gid(&self) -> (r: u32)
        requires
            self.wf(),
        ensures
            r == self.spec_gid(),
    {
        read_u32_le(&self.bytes, 28)
    }

    /// Returns the process id of the calling process.
    pub fn pid(&self) -> (r: u32)
        requires
            self.wf(),
        ensures
            r == self.spec_pid(),
    {
        read_u32_le(&self.bytes, 32)
    }

    /// Returns the argument part length of the corresponding request
    /// message. A header whose `length` field claims less than the
    /// header record itself has no argument length; such a header is
    /// ruled out here and rejected by the decoder.
    pub fn arg_len(&self) -> (r: usize)
        requires
            self.wf(),
            self.spec_arg_len() >= 0,
        ensures
            r == self.spec_arg_len(),
    {
        match self.opcode() {
            Some(Opcode::Write) => WRITE_IN_LEN,
            Some(Opcode::NotifyReply) => WRITE_IN_LEN,
            _ => (self.len() as usize) - IN_HEADER_LEN,
        }
    }
}

/// The argument length is the fixed write prefix size exactly for the
/// write and notify-reply operations, and `length - IN_HEADER_LEN` for
/// every other header, recognized or not.
pub proof fn lemma_arg_len_cases(h: InHeader)
    ensures
        (h.spec_opcode() == Some(Opcode::Write) || h.spec_opcode() == Some(Opcode::NotifyReply))
            ==> h.spec_arg_len() == WRITE_IN_LEN as int,
        !(h.spec_opcode() == Some(Opcode::Write) || h.spec_opcode() == Some(Opcode::NotifyReply))
            ==> h.spec_arg_len() == h.spec_len() - IN_HEADER_LEN,
{
}

/// The header part of a response or notification message: `length:u32`,
/// `error:i32`, `unique:u64`, in native (little-endian) order on the
/// wire.
#[derive(Debug)]
pub struct OutHeader {
    /// The total size of the outgoing message, header included.
    pub len: u32,
    /// Zero for success, or a negated platform error code.
    pub error: i32,
    /// The correlation identifier copied from the originating request.
    pub unique: u64,
}

impl OutHeader {
    /// The wire encoding of this header: `len`, then `error` in two's
    /// complement, then `unique`, each little-endian.
    pub open spec fn spec_bytes(self) -> Seq<u8> {
        u32_le_bytes(self.len) + i32_le_bytes(self.error) + u64_le_bytes(self.unique)
    }

    /// Builds a response header from its three fields.
    pub fn new(unique: u64, error: i32, len: u32) -> (h: OutHeader)
        ensures
            h.unique == unique,
            h.error == error,
            h.len == len,
    {
        OutHeader { len, error, unique }
    }

    /// Returns the correlation identifier of the response.
    pub fn unique(&self) -> (r: u64)
        ensures
            r == self.unique,
    {
        self.unique
    }

    /// Returns the error field of the response.
    pub fn error(&self) -> (r: i32)
        ensures
            r == self.error,
    {
        self.error
    }

    /// Returns the total message size recorded in the header.
    pub fn len(&self) -> (r: u32)
        ensures
            r == self.len,
    {
        self.len
    }

    /// Returns the byte sequence that this header puts on the wire.
    pub fn as_bytes(&self) -> (v: Vec<u8>)
        ensures
            v@ == self.spec_bytes(),
            v@.len() == OUT_HEADER_LEN,
    {
        let mut v: Vec<u8> = Vec::new();
        push_u32_le(&mut v, self.len);
        push_i32_le(&mut v, self.error);
        push_u64_le(&mut v, self.unique);
        v
    }
}

} // verus!
