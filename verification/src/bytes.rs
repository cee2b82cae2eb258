//! Little-endian views of the fixed-width integers that make up the
//! kernel's header records, together with the executable encoders and
//! decoders that realize them on byte buffers.

use vstd::prelude::*;

verus! {

/// The value of the four bytes starting at `i`, read as a little-endian
/// unsigned 32-bit integer.
pub open spec fn u32_le_at(b: Seq<u8>, i: int) -> u32
    recommends
        0 <= i,
        i + 4 <= b.len(),
{
    ((b[i] as int) + (b[i + 1] as int) * 0x100 + (b[i + 2] as int) * 0x1_0000 + (b[i + 3] as int)
        * 0x100_0000) as u32
}

/// The value of the eight bytes starting at `i`, read as a little-endian
/// unsigned 64-bit integer.
pub open spec fn u64_le_at(b: Seq<u8>, i: int) -> u64
    recommends
        0 <= i,
        i + 8 <= b.len(),
{
    ((b[i] as int) + (b[i + 1] as int) * 0x100 + (b[i + 2] as int) * 0x1_0000 + (b[i + 3] as int)
        * 0x100_0000 + (b[i + 4] as int) * 0x1_0000_0000 + (b[i + 5] as int) * 0x100_0000_0000 + (
    b[i + 6] as int) * 0x1_0000_0000_0000 + (b[i + 7] as int) * 0x100_0000_0000_0000) as u64
}

/// The four-byte little-endian encoding of a 32-bit value.
pub open spec fn u32_le_bytes(x: u32) -> Seq<u8> {
    seq![
        (x % 0x100) as u8,
        ((x / 0x100) % 0x100) as u8,
        ((x / 0x1_0000) % 0x100) as u8,
        ((x / 0x100_0000) % 0x100) as u8,
    ]
}

/// The eight-byte little-endian encoding of a 64-bit value.
pub open spec fn u64_le_bytes(x: u64) -> Seq<u8> {
    seq![
        (x % 0x100) as u8,
        ((x / 0x100) % 0x100) as u8,
        ((x / 0x1_0000) % 0x100) as u8,
        ((x / 0x100_0000) % 0x100) as u8,
        ((x / 0x1_0000_0000) % 0x100) as u8,
        ((x / 0x100_0000_0000) % 0x100) as u8,
        ((x / 0x1_0000_0000_0000) % 0x100) as u8,
        ((x / 0x100_0000_0000_0000) % 0x100) as u8,
    ]
}

/// The unsigned 32-bit value with the same two's-complement bit pattern
/// as a signed 32-bit value.
pub open spec fn u32_of_i32(x: i32) -> u32 {
    if x >= 0 {
        x as u32
    } else {
        (x + 0x1_0000_0000) as u32
    }
}

/// The four-byte little-endian two's-complement encoding of a signed
/// 32-bit value.
pub open spec fn i32_le_bytes(x: i32) -> Seq<u8> {
    u32_le_bytes(u32_of_i32(x))
}

/// The views of a sequence of owned payload chunks.
pub open spec fn chunk_views(chunks: Seq<Vec<u8>>) -> Seq<Seq<u8>> {
    Seq::new(chunks.len(), |i: int| chunks[i]@)
}

/// The total number of bytes over a sequence of payload chunks.
pub open spec fn payload_total(chunks: Seq<Seq<u8>>) -> int
    decreases chunks.len(),
{
    if chunks.len() == 0 {
        0
    } else {
        payload_total(chunks.drop_last()) + chunks.last().len()
    }
}

/// The concatenation of a sequence of payload chunks, in order.
pub open spec fn concat_payload(chunks: Seq<Seq<u8>>) -> Seq<u8>
    decreases chunks.len(),
{
    if chunks.len() == 0 {
        Seq::empty()
    } else {
        concat_payload(chunks.drop_last()) + chunks.last()
    }
}

/// Extending a chunk prefix by one chunk adds that chunk's bytes to the
/// total and to the concatenation.
pub proof fn lemma_payload_take_succ(chunks: Seq<Seq<u8>>, i: int)
    requires
        0 <= i < chunks.len(),
    ensures
        payload_total(chunks.take(i + 1)) == payload_total(chunks.take(i)) + chunks[i].len(),
        concat_payload(chunks.take(i + 1)) == concat_payload(chunks.take(i)) + chunks[i],
{
    assert(chunks.take(i + 1).drop_last() =~= chunks.take(i));
    assert(chunks.take(i + 1).last() == chunks[i]);
}

/// A payload's total byte count is never negative.
pub proof fn lemma_payload_total_nonneg(chunks: Seq<Seq<u8>>)
    ensures
        payload_total(chunks) >= 0,
    decreases chunks.len(),
{
    if chunks.len() > 0 {
        lemma_payload_total_nonneg(chunks.drop_last());
    }
}

/// A prefix of the chunks never holds more bytes than all of them.
pub proof fn lemma_payload_take_le(chunks: Seq<Seq<u8>>, i: int)
    requires
        0 <= i <= chunks.len(),
    ensures
        payload_total(chunks.take(i)) <= payload_total(chunks),
    decreases chunks.len() - i,
{
    if i == chunks.len() {
        assert(chunks.take(i) =~= chunks);
    } else {
        lemma_payload_take_succ(chunks, i);
        lemma_payload_take_le(chunks, i + 1);
    }
}

/// A byte buffer of the given length with every byte zero.
pub fn zeroed_vec(n: usize) -> (v: Vec<u8>)
    ensures
        v@.len() == n,
        forall|i: int| 0 <= i < n ==> v@[i] == 0u8,
{
    let mut v: Vec<u8> = Vec::new();
    let mut i: usize = 0;
    while i < n
        invariant
            i <= n,
            v@.len() == i,
            forall|k: int| 0 <= k < i ==> v@[k] == 0u8,
        decreases n - i,
    {
        v.push(0u8);
        i = i + 1;
    }
    v
}

/// Reads the little-endian 32-bit value at offset `i` of `b`.
pub fn read_u32_le(b: &Vec<u8>, i: usize) -> (r: u32)
    requires
        i + 4 <= b@.len(),
    ensures
        r == u32_le_at(b@, i as int),
{
    // Binding the length anchors it below the machine word size, which
    // the index arithmetic needs.
    let n: usize = b.len();
    let b0 = b[i];
    let b1 = b[i + 1];
    let b2 = b[i + 2];
    let b3 = b[i + 3];
    (b0 as u32) + (b1 as u32) * 0x100 + (b2 as u32) * 0x1_0000 + (b3 as u32) * 0x100_0000
}

/// Reads the little-endian 64-bit value at offset `i` of `b`.
pub fn read_u64_le(b: &Vec<u8>, i: usize) -> (r: u64)
    requires
        i + 8 <= b@.len(),
    ensures
        r == u64_le_at(b@, i as int),
{
    // Binding the length anchors it below the machine word size, which
    // the index arithmetic needs.
    let n: usize = b.len();
    let b0 = b[i];
    let b1 = b[i + 1];
    let b2 = b[i + 2];
    let b3 = b[i + 3];
    let b4 = b[i + 4];
    let b5 = b[i + 5];
    let b6 = b[i + 6];
    let b7 = b[i + 7];
    (b0 as u64) + (b1 as u64) * 0x100 + (b2 as u64) * 0x1_0000 + (b3 as u64) * 0x100_0000 + (
    b4 as u64) * 0x1_0000_0000 + (b5 as u64) * 0x100_0000_0000 + (b6 as u64) * 0x1_0000_0000_0000
        + (b7 as u64) * 0x100_0000_0000_0000
}

/// Appends the four-byte little-endian encoding of `x` to `v`.
pub fn push_u32_le(v: &mut Vec<u8>, x: u32)
    ensures
        final(v)@ == old(v)@ + u32_le_bytes(x),
{
    v.push((x % 0x100) as u8);
    v.push(((x / 0x100) % 0x100) as u8);
    v.push(((x / 0x1_0000) % 0x100) as u8);
    v.push(((x / 0x100_0000) % 0x100) as u8);
    assert(v@ =~= old(v)@ + u32_le_bytes(x));
}

/// Appends the eight-byte little-endian encoding of `x` to `v`.
pub fn push_u64_le(v: &mut Vec<u8>, x: u64)
    ensures
        final(v)@ == old(v)@ + u64_le_bytes(x),
{
    v.push((x % 0x100) as u8);
    v.push(((x / 0x100) % 0x100) as u8);
    v.push(((x / 0x1_0000) % 0x100) as u8);
    v.push(((x / 0x100_0000) % 0x100) as u8);
    v.push(((x / 0x1_0000_0000) % 0x100) as u8);
    v.push(((x / 0x100_0000_0000) % 0x100) as u8);
    v.push(((x / 0x1_0000_0000_0000) % 0x100) as u8);
    v.push(((x / 0x100_0000_0000_0000) % 0x100) as u8);
    assert(v@ =~= old(v)@ + u64_le_bytes(x));
}

/// Appends the four-byte little-endian two's-complement encoding of `x`
/// to `v`.
pub fn push_i32_le(v: &mut Vec<u8>, x: i32)
    ensures
        final(v)@ == old(v)@ + i32_le_bytes(x),
{
    let u: u32 = if x >= 0 {
        x as u32
    } else {
        ((x as i64) + 0x1_0000_0000i64) as u32
    };
    assert(u == u32_of_i32(x));
    push_u32_le(v, u);
}

} // verus!
