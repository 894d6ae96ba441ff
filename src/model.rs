//! What a brain sees of the world: its error vocabulary and the drone
//! status record, with the record's fixed little-endian wire layout.
use vstd::prelude::*;

verus! {

/// The failures a guest can observe from a host function.
#[derive(PartialEq, Eq, Structural, Clone, Copy, Debug)]
pub enum ApiError {
    HostError,
    ArgumentError,
    NotFound,
}

/// Bytes that one drone status record takes at the boundary.
pub const STATUS_SIZE: usize = 20;

/// Bytes that one drone identifier takes at the boundary.
pub const ID_SIZE: usize = 4;

/// The position/pose of a drone. Each field holds the IEEE-754 bit pattern
/// of one single-precision float (`f32::to_bits`), so that the record is
/// carried bit for bit, NaN payloads and signed zeros included.
#[derive(Clone, Copy, Debug, PartialEq, Eq)]
pub struct DroneStatus {
    pub pos: [u32; 5],
}

/// The four little-endian bytes of `v`.
pub open spec fn le_bytes(v: u32) -> Seq<u8> {
    seq![(v & 0xff) as u8, ((v >> 8) & 0xff) as u8, ((v >> 16) & 0xff) as u8, ((v >> 24) & 0xff) as u8]
}

/// The `u32` whose little-endian bytes start at `at` in `b`.
pub open spec fn le_word(b: Seq<u8>, at: int) -> u32 {
    (b[at] as u32) | ((b[at + 1] as u32) << 8u32) | ((b[at + 2] as u32) << 16u32) | ((b[at + 3] as u32)
        << 24u32)
}

/// Wire form of a sequence of five words: their little-endian bytes in
/// order, with no padding.
pub open spec fn wire_of(w: Seq<u32>) -> Seq<u8> {
    le_bytes(w[0]) + le_bytes(w[1]) + le_bytes(w[2]) + le_bytes(w[3]) + le_bytes(w[4])
}

/// The five words that a 20-byte record holds.
pub open spec fn words_of(b: Seq<u8>) -> Seq<u32> {
    seq![le_word(b, 0), le_word(b, 4), le_word(b, 8), le_word(b, 12), le_word(b, 16)]
}

/// The four bytes of `v`, wherever they stand in a sequence, read back as `v`.
pub proof fn lemma_le_word_of_bytes(v: u32, pre: Seq<u8>, post: Seq<u8>)
    ensures
        le_bytes(v).len() == 4,
        le_word(pre + le_bytes(v) + post, pre.len() as int) == v,
{
    let b = pre + le_bytes(v) + post;
    let i = pre.len() as int;
    assert(b[i] == (v & 0xff) as u8);
    assert(b[i + 1] == ((v >> 8) & 0xff) as u8);
    assert(b[i + 2] == ((v >> 16) & 0xff) as u8);
    assert(b[i + 3] == ((v >> 24) & 0xff) as u8);
    assert(v == ((v & 0xff) as u8 as u32) | ((((v >> 8) & 0xff) as u8 as u32) << 8u32) | ((((v >> 16)
        & 0xff) as u8 as u32) << 16u32) | ((((v >> 24) & 0xff) as u8 as u32) << 24u32)) by (bit_vector);
}

/// A record written in wire form and read back gives the same five words:
/// the bit patterns, and so the floats, come back exactly.
pub proof fn lemma_status_round_trip(status: DroneStatus)
    ensures
        status.wire().len() == STATUS_SIZE,
        words_of(status.wire()) == status.pos@,
{
    let w = status.pos@;
    let b = status.wire();
    lemma_le_word_of_bytes(w[0], Seq::empty(), b.subrange(4, 20));
    assert(b =~= Seq::<u8>::empty() + le_bytes(w[0]) + b.subrange(4, 20));
    lemma_le_word_of_bytes(w[1], b.subrange(0, 4), b.subrange(8, 20));
    assert(b =~= b.subrange(0, 4) + le_bytes(w[1]) + b.subrange(8, 20));
    lemma_le_word_of_bytes(w[2], b.subrange(0, 8), b.subrange(12, 20));
    assert(b =~= b.subrange(0, 8) + le_bytes(w[2]) + b.subrange(12, 20));
    lemma_le_word_of_bytes(w[3], b.subrange(0, 12), b.subrange(16, 20));
    assert(b =~= b.subrange(0, 12) + le_bytes(w[3]) + b.subrange(16, 20));
    lemma_le_word_of_bytes(w[4], b.subrange(0, 16), Seq::empty());
    assert(b =~= b.subrange(0, 16) + le_bytes(w[4]) + Seq::<u8>::empty());
    assert(words_of(b) =~= w);
}

/// Appends the little-endian bytes of `v` to `out`.
pub fn push_le(out: &mut Vec<u8>, v: u32)
    ensures
        final(out)@ == old(out)@ + le_bytes(v),
{
    out.push((v & 0xff) as u8);
    out.push(((v >> 8) & 0xff) as u8);
    out.push(((v >> 16) & 0xff) as u8);
    out.push(((v >> 24) & 0xff) as u8);
    assert(out@ =~= old(out)@ + le_bytes(v));
}

/// Reads the little-endian `u32` that starts at `at`.
pub fn read_le(b: &[u8], at: usize) -> (r: u32)
    requires
        at + 4 <= b@.len(),
    ensures
        r == le_word(b@, at as int),
{
    (b[at] as u32) | ((b[at + 1] as u32) << 8u32) | ((b[at + 2] as u32) << 16u32) | ((b[at + 3] as u32)
        << 24u32)
}

impl DroneStatus {
    /// The record's bytes at the boundary.
    pub open spec fn wire(self) -> Seq<u8> {
        wire_of(self.pos@)
    }

    /// Serialises the record into its 20-byte wire form.
    pub fn to_bytes(&self) -> (r: Vec<u8>)
        ensures
            r@ == self.wire(),
            r@.len() == STATUS_SIZE,
    {
        let mut out: Vec<u8> = Vec::new();
        push_le(&mut out, self.pos[0]);
        push_le(&mut out, self.pos[1]);
        push_le(&mut out, self.pos[2]);
        push_le(&mut out, self.pos[3]);
        push_le(&mut out, self.pos[4]);
        assert(out@ =~= self.wire());
        out
    }

    /// Reads a record from its wire form; `None` unless `bytes` is exactly one
    /// record long.
    pub fn from_bytes(bytes: &[u8]) -> (r: Option<DroneStatus>)
        ensures
            r is Some <==> bytes@.len() == STATUS_SIZE,
            r matches Some(s) ==> s.pos@ == words_of(bytes@),
    {
        if bytes.len() != STATUS_SIZE {
            return None;
        }
        let pos = [
            read_le(bytes, 0),
            read_le(bytes, 4),
            read_le(bytes, 8),
            read_le(bytes, 12),
            read_le(bytes, 16),
        ];
        let s = DroneStatus { pos };
        assert(s.pos@ =~= words_of(bytes@));
        Some(s)
    }
}

} // verus!
