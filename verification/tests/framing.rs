//! End-to-end tests of the framing layer: response encoding against the
//! exact wire bytes, and request decoding through the resumable state
//! machine over in-memory channels.

use polyfuse::channel::{FrameError, MemReader, MemWriter, Poll, Reader, ReceiveMsg, Writer};
use polyfuse::decode::{header_received, ReadRequest, Request};
use polyfuse::encode::send_msg;
use polyfuse::header::{InHeader, OutHeader, IN_HEADER_LEN, OUT_HEADER_LEN, WRITE_IN_LEN};
use polyfuse::opcode::{opcode_of, Opcode};

/// Builds the 40 wire bytes of a request header.
fn header_bytes(len: u32, opcode: u32, unique: u64, nodeid: u64, uid: u32, gid: u32, pid: u32) -> Vec<u8> {
    let mut b = Vec::new();
    b.extend_from_slice(&len.to_le_bytes());
    b.extend_from_slice(&opcode.to_le_bytes());
    b.extend_from_slice(&unique.to_le_bytes());
    b.extend_from_slice(&nodeid.to_le_bytes());
    b.extend_from_slice(&uid.to_le_bytes());
    b.extend_from_slice(&gid.to_le_bytes());
    b.extend_from_slice(&pid.to_le_bytes());
    b.extend_from_slice(&0u32.to_le_bytes());
    assert_eq!(b.len(), IN_HEADER_LEN);
    b
}

/// Polls a decode over the given transfer segments until it is ready.
fn decode(segments: Vec<Vec<u8>>) -> (Poll<Result<Request, FrameError>>, MemReader, ReadRequest) {
    let mut reader = MemReader::new(segments);
    let mut dec = ReadRequest::new();
    let r = dec.poll(&mut reader);
    (r, reader, dec)
}

/// A channel that always reports a transport failure.
struct FailChannel(i32);

impl Reader for FailChannel {
    fn poll_receive_msg(&mut self, _buf: &mut Vec<u8>) -> Poll<Result<usize, i32>> {
        Poll::Ready(Err(self.0))
    }
}

impl Writer for FailChannel {
    fn poll_write_msg(&mut self, _header: &OutHeader, _payload: &Vec<Vec<u8>>) -> Poll<Result<(), i32>> {
        Poll::Ready(Err(self.0))
    }
}

/// A receiver that suspends once before each transfer of the underlying
/// in-memory channel.
struct SlowReader {
    inner: MemReader,
    ready: bool,
}

impl Reader for SlowReader {
    fn poll_receive_msg(&mut self, buf: &mut Vec<u8>) -> Poll<Result<usize, i32>> {
        if self.ready {
            self.ready = false;
            self.inner.poll_receive_msg(buf)
        } else {
            self.ready = true;
            Poll::Pending
        }
    }
}

#[test]
fn send_msg_empty() {
    let mut writer = MemWriter::new();
    let r = send_msg(&mut writer, 42, 4, &vec![]);
    assert!(matches!(r, Poll::Ready(Ok(_))));
    assert_eq!(writer.bytes[0..4], [0x10, 0x00, 0x00, 0x00], "header.len");
    assert_eq!(writer.bytes[4..8], [0x04, 0x00, 0x00, 0x00], "header.error");
    assert_eq!(
        writer.bytes[8..16],
        [0x2a, 0x00, 0x00, 0x00, 0x00, 0x00, 0x00, 0x00],
        "header.unique"
    );
    assert_eq!(writer.bytes.len(), 16);
}

#[test]
fn send_msg_single_data() {
    let mut writer = MemWriter::new();
    let r = send_msg(&mut writer, 42, 0, &vec![b"hello".to_vec()]);
    assert!(matches!(r, Poll::Ready(Ok(_))));
    assert_eq!(writer.bytes[0..4], [0x15, 0x00, 0x00, 0x00], "header.len");
    assert_eq!(writer.bytes[4..8], [0x00, 0x00, 0x00, 0x00], "header.error");
    assert_eq!(
        writer.bytes[8..16],
        [0x2a, 0x00, 0x00, 0x00, 0x00, 0x00, 0x00, 0x00],
        "header.unique"
    );
    assert_eq!(writer.bytes[16..], [0x68, 0x65, 0x6c, 0x6c, 0x6f], "payload");
}

#[test]
fn send_msg_chunked_data() {
    let payload: Vec<Vec<u8>> = vec![
        b"hello, ".to_vec(),
        b"this ".to_vec(),
        b"is a ".to_vec(),
        b"message.".to_vec(),
    ];
    let mut writer = MemWriter::new();
    let r = send_msg(&mut writer, 26, 0, &payload);
    assert!(matches!(r, Poll::Ready(Ok(_))));
    assert_eq!(writer.bytes[0..4], [0x29, 0x00, 0x00, 0x00], "header.len");
    assert_eq!(writer.bytes[4..8], [0x00, 0x00, 0x00, 0x00], "header.error");
    assert_eq!(
        writer.bytes[8..16],
        [0x1a, 0x00, 0x00, 0x00, 0x00, 0x00, 0x00, 0x00],
        "header.unique"
    );
    assert_eq!(writer.bytes[16..], *b"hello, this is a message.", "payload");
}

#[test]
fn send_msg_returns_header_record() {
    let mut writer = MemWriter::new();
    match send_msg(&mut writer, 7, -2, &vec![b"abc".to_vec()]) {
        Poll::Ready(Ok(h)) => {
            assert_eq!(h.unique(), 7);
            assert_eq!(h.error(), -2);
            assert_eq!(h.len(), (OUT_HEADER_LEN + 3) as u32);
        }
        _ => panic!("send did not complete"),
    }
    // -2 in two's complement, little-endian.
    assert_eq!(writer.bytes[4..8], [0xfe, 0xff, 0xff, 0xff], "header.error");
}

#[test]
fn send_msg_transport_error() {
    let mut writer = FailChannel(5);
    match send_msg(&mut writer, 1, 0, &vec![]) {
        Poll::Ready(Err(FrameError::Transport(code))) => assert_eq!(code, 5),
        _ => panic!("transport failure was not surfaced"),
    }
}

#[test]
fn decode_simple_request() {
    let hdr = header_bytes(48, 1, 11, 22, 33, 44, 55);
    let arg = vec![9u8, 8, 7, 6, 5, 4, 3, 2];
    let (r, reader, _dec) = decode(vec![hdr.clone(), arg.clone()]);
    match r {
        Poll::Ready(Ok(req)) => {
            assert_eq!(req.header().len(), 48);
            assert_eq!(req.header().opcode(), Some(Opcode::Lookup));
            assert_eq!(req.header().unique(), 11);
            assert_eq!(req.header().nodeid(), 22);
            assert_eq!(req.header().uid(), 33);
            assert_eq!(req.header().gid(), 44);
            assert_eq!(req.header().pid(), 55);
            assert_eq!(req.header().arg_len(), 8);
            assert_eq!(req.arg(), &arg);
            assert_eq!(req.header().bytes, hdr);
        }
        _ => panic!("decode did not complete"),
    }
    assert_eq!(reader.position(), 2);
}

#[test]
fn decode_empty_argument_section() {
    let hdr = header_bytes(40, 26, 1, 0, 0, 0, 0);
    let (r, _reader, _dec) = decode(vec![hdr, Vec::new()]);
    match r {
        Poll::Ready(Ok(req)) => {
            assert_eq!(req.header().arg_len(), 0);
            assert!(req.arg().is_empty());
        }
        _ => panic!("decode did not complete"),
    }
}

#[test]
fn decode_short_header_fails_before_argument_stage() {
    // The channel reports only 10 bytes on the header receive.
    let (r, reader, dec) = decode(vec![vec![0u8; 10]]);
    match r {
        Poll::Ready(Err(e)) => assert_eq!(e, FrameError::ShortRead),
        _ => panic!("short header read was not rejected"),
    }
    // Only the header receive was ever issued.
    assert_eq!(reader.position(), 1);
    assert!(dec.arg.is_none());
}

#[test]
fn decode_short_argument_fails_with_empty_buffer() {
    let hdr = header_bytes(50, 1, 1, 0, 0, 0, 0);
    let (r, _reader, dec) = decode(vec![hdr, vec![1u8, 2, 3]]);
    match r {
        Poll::Ready(Err(e)) => assert_eq!(e, FrameError::ShortRead),
        _ => panic!("short argument read was not rejected"),
    }
    // No partially filled argument buffer is observable afterwards.
    assert_eq!(dec.arg.as_ref().map(|a| a.len()).unwrap_or(0), 0);
}

#[test]
fn decode_header_transport_error() {
    let mut reader = FailChannel(4);
    let mut dec = ReadRequest::new();
    match dec.poll(&mut reader) {
        Poll::Ready(Err(FrameError::Transport(code))) => assert_eq!(code, 4),
        _ => panic!("transport failure was not surfaced"),
    }
}

#[test]
fn decode_undersized_length_field_is_a_short_read() {
    // length = 24 claims less than the header record itself.
    let hdr = header_bytes(24, 1, 1, 0, 0, 0, 0);
    let (r, _reader, _dec) = decode(vec![hdr]);
    match r {
        Poll::Ready(Err(e)) => assert_eq!(e, FrameError::ShortRead),
        _ => panic!("undersized length field was not rejected"),
    }
}

#[test]
fn decode_resumes_across_suspensions() {
    let hdr = header_bytes(44, 3, 5, 6, 7, 8, 9);
    let arg = vec![1u8, 2, 3, 4];
    let mut reader = SlowReader {
        inner: MemReader::new(vec![hdr, arg.clone()]),
        ready: false,
    };
    let mut dec = ReadRequest::new();
    assert!(matches!(dec.poll(&mut reader), Poll::Pending));
    assert!(matches!(dec.poll(&mut reader), Poll::Pending));
    match dec.poll(&mut reader) {
        Poll::Ready(Ok(req)) => {
            assert_eq!(req.header().unique(), 5);
            assert_eq!(req.arg(), &arg);
        }
        _ => panic!("decode did not resume to completion"),
    }
}

#[test]
fn decode_is_deterministic_across_instances() {
    let hdr = header_bytes(45, 3, 5, 6, 7, 8, 9);
    let arg = vec![10u8, 20, 30, 40, 50];
    let (r1, _, _) = decode(vec![hdr.clone(), arg.clone()]);
    let (r2, _, _) = decode(vec![hdr, arg]);
    match (r1, r2) {
        (Poll::Ready(Ok(a)), Poll::Ready(Ok(b))) => {
            assert_eq!(a.header().bytes, b.header().bytes);
            assert_eq!(a.arg(), b.arg());
            assert_eq!(a.header().unique(), b.header().unique());
            assert_eq!(a.header().opcode(), b.header().opcode());
        }
        _ => panic!("decode did not complete"),
    }
}

#[test]
fn arg_len_write_and_notify_reply_use_fixed_prefix_size() {
    // For write and notify-reply the argument length is the fixed
    // prefix size, independent of the header's own length field.
    let w = InHeader::from_bytes(header_bytes(4096, 16, 1, 0, 0, 0, 0));
    assert_eq!(w.opcode(), Some(Opcode::Write));
    assert_eq!(w.arg_len(), WRITE_IN_LEN);
    let n = InHeader::from_bytes(header_bytes(8192, 41, 1, 0, 0, 0, 0));
    assert_eq!(n.opcode(), Some(Opcode::NotifyReply));
    assert_eq!(n.arg_len(), WRITE_IN_LEN);
    // Every other opcode subtracts the header record size.
    let o = InHeader::from_bytes(header_bytes(52, 15, 1, 0, 0, 0, 0));
    assert_eq!(o.opcode(), Some(Opcode::Read));
    assert_eq!(o.arg_len(), 12);
}

#[test]
fn unrecognized_opcode_degrades_to_none() {
    assert_eq!(opcode_of(0), None);
    assert_eq!(opcode_of(7), None);
    assert_eq!(opcode_of(19), None);
    assert_eq!(opcode_of(48), None);
    assert_eq!(opcode_of(16), Some(Opcode::Write));
    assert_eq!(opcode_of(41), Some(Opcode::NotifyReply));
    assert_eq!(opcode_of(47), Some(Opcode::CopyFileRange));
    // The decoder itself never fails on an unrecognized code.
    let hdr = header_bytes(43, 48, 2, 0, 0, 0, 0);
    let (r, _, _) = decode(vec![hdr, vec![0u8, 0, 0]]);
    match r {
        Poll::Ready(Ok(req)) => {
            assert_eq!(req.header().opcode(), None);
            assert_eq!(req.arg().len(), 3);
        }
        _ => panic!("unrecognized opcode was rejected by the framing layer"),
    }
}

#[test]
fn header_received_decides_acceptance() {
    // A full transfer of a well-sized header is accepted with its bytes kept.
    let good = header_bytes(48, 1, 9, 0, 0, 0, 0);
    match header_received(good.clone(), IN_HEADER_LEN) {
        Ok(h) => assert_eq!(h.bytes, good),
        Err(_) => panic!("well-sized header was rejected"),
    }
    // A short transfer is rejected.
    match header_received(good.clone(), IN_HEADER_LEN - 1) {
        Err(e) => assert_eq!(e, FrameError::ShortRead),
        Ok(_) => panic!("short header transfer was accepted"),
    }
    // A full transfer whose length field claims less than the header
    // record is rejected too.
    let undersized = header_bytes(24, 1, 9, 0, 0, 0, 0);
    match header_received(undersized, IN_HEADER_LEN) {
        Err(e) => assert_eq!(e, FrameError::ShortRead),
        Ok(_) => panic!("undersized length field was accepted"),
    }
}

#[test]
fn receive_msg_one_shot() {
    let mut reader = MemReader::new(vec![vec![7u8, 8, 9]]);
    let mut op = ReceiveMsg::new(vec![0u8; 5]);
    match op.poll(&mut reader) {
        Poll::Ready(Ok(n)) => assert_eq!(n, 3),
        _ => panic!("receive did not complete"),
    }
    assert_eq!(op.into_buf(), vec![7, 8, 9, 0, 0]);
}

#[test]
fn header_is_zero_initialized_before_population() {
    let dec = ReadRequest::new();
    assert!(dec.header.is_none());
    // The reference-to-a-receiver delegation leaves the underlying
    // channel usable for further operations.
    fn poll_once<R: Reader>(mut reader: R, buf: &mut Vec<u8>) -> Poll<Result<usize, i32>> {
        reader.poll_receive_msg(buf)
    }
    let mut inner = MemReader::new(vec![vec![1u8, 2, 3], vec![4u8]]);
    let mut buf = vec![0u8; 3];
    match poll_once(&mut inner, &mut buf) {
        Poll::Ready(Ok(n)) => {
            assert_eq!(n, 3);
            assert_eq!(buf, vec![1, 2, 3]);
        }
        _ => panic!("delegated receive failed"),
    }
    assert_eq!(inner.position(), 1);
}
