//! The encoding of a value: a header of fixed size, written in place, and
//! for dynamic values a body appended behind it.

use vstd::prelude::*;
use crate::codec::buffer::{
    get_u32, get_u64, keeps, lemma_get_u32, lemma_get_u64, lemma_u32_le, lemma_u64_le, put_u32,
    put_u64, same_outside, u32_to_le, u64_to_le, BufferDecoder, BufferEncoder,
};

verus! {

/// A type with a boundary encoding.
pub trait Encoder: Sized {
    /// The mathematical value that an instance stands for.
    type Value;

    /// Bytes that a value takes in the header region.
    const HEADER_SIZE: usize;

    /// The number that `HEADER_SIZE` is.
    spec fn header_size() -> nat;

    /// The value of `self`.
    spec fn value(&self) -> Self::Value;

    /// The buffer that encoding `v` at header offset `at` makes of `buf`.
    spec fn encoded(v: Self::Value, buf: Seq<u8>, at: int) -> Seq<u8>;

    /// What the machine's limits ask of a value that is to be encoded.
    spec fn encodable(v: Self::Value) -> bool;

    /// Bytes that encoding `v` appends behind the end of the buffer.
    spec fn appended(v: Self::Value) -> nat;

    /// Whether every sequence in `v` has fewer than 2^32 elements, so that
    /// no count is cut short when it is written.
    spec fn in_range(v: Self::Value) -> bool;

    /// Whether `buf` holds at `at` what decoding may read.
    spec fn decodable(buf: Seq<u8>, at: int) -> bool;

    /// The value that `buf` holds at header offset `at`.
    spec fn decoded(buf: Seq<u8>, at: int) -> Self::Value;

    /// Offset and length of the body that the header at `at` names.
    spec fn body_range(buf: Seq<u8>, at: int) -> (int, int);

    /// The value that decoding the header alone leaves in a result that
    /// held `before`.
    spec fn header_decoded(before: Self::Value, buf: Seq<u8>, at: int) -> Self::Value;

    /// `HEADER_SIZE` is the number that `header_size` says.
    proof fn lemma_header_size()
        ensures
            Self::HEADER_SIZE == Self::header_size(),
    ;

    /// Encoding writes into its own header slot and behind the end of the
    /// buffer, nowhere else, and appends as many bytes as `appended` says.
    proof fn lemma_frame(v: Self::Value, buf: Seq<u8>, at: int)
        requires
            0 <= at,
            at + Self::HEADER_SIZE <= buf.len(),
        ensures
            same_outside(buf, Self::encoded(v, buf, at), at, Self::HEADER_SIZE as int),
            Self::encoded(v, buf, at).len() == buf.len() + Self::appended(v),
    ;

    /// What was encoded is decoded again from every buffer that keeps the
    /// header slot and the appended bytes, provided that the counts of `v`
    /// and the length of the encoding are below 2^32.
    proof fn lemma_round_trip(v: Self::Value, buf: Seq<u8>, at: int, later: Seq<u8>)
        requires
            0 <= at,
            at + Self::HEADER_SIZE <= buf.len(),
            Self::in_range(v),
            buf.len() + Self::appended(v) <= u32::MAX,
            keeps(Self::encoded(v, buf, at), later, buf.len() as int, at, Self::HEADER_SIZE as int),
        ensures
            Self::decodable(later, at),
            Self::decoded(later, at) == v,
    ;

    /// A decodable header lies inside the buffer.
    proof fn lemma_decodable(buf: Seq<u8>, at: int)
        requires
            Self::decodable(buf, at),
        ensures
            0 <= at,
            at + Self::HEADER_SIZE <= buf.len(),
    ;

    /// Encodes `self` into `encoder`, with its header at `field_offset`.
    fn encode(&self, encoder: &mut BufferEncoder, field_offset: usize)
        requires
            field_offset + Self::HEADER_SIZE <= old(encoder)@.len(),
            Self::encodable(self.value()),
        ensures
            final(encoder)@ == Self::encoded(self.value(), old(encoder)@, field_offset as int),
    ;

    /// Whether `decode_body` may be called at `field_offset`.
    fn is_decodable(decoder: &BufferDecoder, field_offset: usize) -> (ok: bool)
        ensures
            ok == Self::decodable(decoder@, field_offset as int),
    ;

    /// Reads the header at `field_offset` and returns the offset and length
    /// of the body that it names.
    fn decode_header(decoder: &mut BufferDecoder, field_offset: usize, result: &mut Self) -> (body: (
        usize,
        usize,
    ))
        requires
            field_offset + Self::HEADER_SIZE <= old(decoder)@.len(),
        ensures
            final(decoder)@ == old(decoder)@,
            (body.0 as int, body.1 as int) == Self::body_range(old(decoder)@, field_offset as int),
            final(result).value() == Self::header_decoded(
                old(result).value(),
                old(decoder)@,
                field_offset as int,
            ),
    ;

    /// Decodes the value whose header stands at `field_offset` into `result`.
    fn decode_body(decoder: &mut BufferDecoder, field_offset: usize, result: &mut Self)
        requires
            Self::decodable(old(decoder)@, field_offset as int),
        ensures
            final(decoder)@ == old(decoder)@,
            final(result).value() == Self::decoded(old(decoder)@, field_offset as int),
    ;
}

impl Encoder for u8 {
    type Value = u8;

    const HEADER_SIZE: usize = 1;

    open spec fn header_size() -> nat {
        1
    }

    open spec fn value(&self) -> u8 {
        *self
    }

    open spec fn encoded(v: u8, buf: Seq<u8>, at: int) -> Seq<u8> {
        buf.update(at, v)
    }

    open spec fn encodable(v: u8) -> bool {
        true
    }

    open spec fn appended(v: u8) -> nat {
        0
    }

    open spec fn in_range(v: u8) -> bool {
        true
    }

    open spec fn decodable(buf: Seq<u8>, at: int) -> bool {
        0 <= at < buf.len()
    }

    open spec fn decoded(buf: Seq<u8>, at: int) -> u8 {
        buf[at]
    }

    open spec fn body_range(buf: Seq<u8>, at: int) -> (int, int) {
        (0, 0)
    }

    open spec fn header_decoded(before: u8, buf: Seq<u8>, at: int) -> u8 {
        buf[at]
    }

    proof fn lemma_header_size() {
    }

    proof fn lemma_frame(v: u8, buf: Seq<u8>, at: int) {
    }

    proof fn lemma_round_trip(v: u8, buf: Seq<u8>, at: int, later: Seq<u8>) {
    }

    proof fn lemma_decodable(buf: Seq<u8>, at: int) {
    }

    fn encode(&self, encoder: &mut BufferEncoder, field_offset: usize) {
        encoder.write_u8(field_offset, *self);
    }

    fn is_decodable(decoder: &BufferDecoder, field_offset: usize) -> (ok: bool) {
        let total: usize = decoder.len();
        total >= 1 && field_offset <= total - 1
    }

    fn decode_header(decoder: &mut BufferDecoder, field_offset: usize, result: &mut u8) -> (body: (
        usize,
        usize,
    )) {
        *result = decoder.read_u8(field_offset);
        (0, 0)
    }

    fn decode_body(decoder: &mut BufferDecoder, field_offset: usize, result: &mut u8) {
        *result = decoder.read_u8(field_offset);
    }
}

} // verus!

verus! {

impl Encoder for u32 {
    type Value = u32;

    const HEADER_SIZE: usize = 4;

    open spec fn header_size() -> nat {
        4
    }

    open spec fn value(&self) -> u32 {
        *self
    }

    open spec fn encoded(v: u32, buf: Seq<u8>, at: int) -> Seq<u8> {
        put_u32(buf, at, v)
    }

    open spec fn encodable(v: u32) -> bool {
        true
    }

    open spec fn appended(v: u32) -> nat {
        0
    }

    open spec fn in_range(v: u32) -> bool {
        true
    }

    open spec fn decodable(buf: Seq<u8>, at: int) -> bool {
        0 <= at && at + 4 <= buf.len()
    }

    open spec fn decoded(buf: Seq<u8>, at: int) -> u32 {
        get_u32(buf, at)
    }

    open spec fn body_range(buf: Seq<u8>, at: int) -> (int, int) {
        (0, 0)
    }

    open spec fn header_decoded(before: u32, buf: Seq<u8>, at: int) -> u32 {
        get_u32(buf, at)
    }

    proof fn lemma_header_size() {
    }

    proof fn lemma_frame(v: u32, buf: Seq<u8>, at: int) {
        lemma_u32_le();
    }

    proof fn lemma_round_trip(v: u32, buf: Seq<u8>, at: int, later: Seq<u8>) {
        lemma_u32_le();
        let out = put_u32(buf, at, v);
        assert forall|i: int| 0 <= i < 4 implies later[at + i] == u32_to_le(v)[i] by {
            assert(later[at + i] == out[at + i]);
        }
        lemma_get_u32(later, at, v);
    }

    proof fn lemma_decodable(buf: Seq<u8>, at: int) {
    }

    fn encode(&self, encoder: &mut BufferEncoder, field_offset: usize) {
        encoder.write_u32(field_offset, *self);
    }

    fn is_decodable(decoder: &BufferDecoder, field_offset: usize) -> (ok: bool) {
        let total: usize = decoder.len();
        total >= 4 && field_offset <= total - 4
    }

    fn decode_header(decoder: &mut BufferDecoder, field_offset: usize, result: &mut u32) -> (body: (
        usize,
        usize,
    )) {
        *result = decoder.read_u32(field_offset);
        (0, 0)
    }

    fn decode_body(decoder: &mut BufferDecoder, field_offset: usize, result: &mut u32) {
        *result = decoder.read_u32(field_offset);
    }
}

impl Encoder for u64 {
    type Value = u64;

    const HEADER_SIZE: usize = 8;

    open spec fn header_size() -> nat {
        8
    }

    open spec fn value(&self) -> u64 {
        *self
    }

    open spec fn encoded(v: u64, buf: Seq<u8>, at: int) -> Seq<u8> {
        put_u64(buf, at, v)
    }

    open spec fn encodable(v: u64) -> bool {
        true
    }

    open spec fn appended(v: u64) -> nat {
        0
    }

    open spec fn in_range(v: u64) -> bool {
        true
    }

    open spec fn decodable(buf: Seq<u8>, at: int) -> bool {
        0 <= at && at + 8 <= buf.len()
    }

    open spec fn decoded(buf: Seq<u8>, at: int) -> u64 {
        get_u64(buf, at)
    }

    open spec fn body_range(buf: Seq<u8>, at: int) -> (int, int) {
        (0, 0)
    }

    open spec fn header_decoded(before: u64, buf: Seq<u8>, at: int) -> u64 {
        get_u64(buf, at)
    }

    proof fn lemma_header_size() {
    }

    proof fn lemma_frame(v: u64, buf: Seq<u8>, at: int) {
        lemma_u64_le();
    }

    proof fn lemma_round_trip(v: u64, buf: Seq<u8>, at: int, later: Seq<u8>) {
        lemma_u64_le();
        let out = put_u64(buf, at, v);
        assert forall|i: int| 0 <= i < 8 implies later[at + i] == u64_to_le(v)[i] by {
            assert(later[at + i] == out[at + i]);
        }
        lemma_get_u64(later, at, v);
    }

    proof fn lemma_decodable(buf: Seq<u8>, at: int) {
    }

    fn encode(&self, encoder: &mut BufferEncoder, field_offset: usize) {
        encoder.write_u64(field_offset, *self);
    }

    fn is_decodable(decoder: &BufferDecoder, field_offset: usize) -> (ok: bool) {
        let total: usize = decoder.len();
        total >= 8 && field_offset <= total - 8
    }

    fn decode_header(decoder: &mut BufferDecoder, field_offset: usize, result: &mut u64) -> (body: (
        usize,
        usize,
    )) {
        *result = decoder.read_u64(field_offset);
        (0, 0)
    }

    fn decode_body(decoder: &mut BufferDecoder, field_offset: usize, result: &mut u64) {
        *result = decoder.read_u64(field_offset);
    }
}

} // verus!

verus! {

/// Round trip: a value that was encoded at `at` is decoded from there
/// again, provided that none of its counts, offsets and lengths needs more
/// than 32 bits: every sequence in it has fewer than 2^32 elements, and the
/// buffer with the encoding in it is shorter than 2^32 bytes.
pub proof fn lemma_decode_encode<T: Encoder>(v: T::Value, buf: Seq<u8>, at: int)
    requires
        0 <= at,
        at + T::HEADER_SIZE <= buf.len(),
        T::in_range(v),
        buf.len() + T::appended(v) <= u32::MAX,
    ensures
        T::decodable(T::encoded(v, buf, at), at),
        T::decoded(T::encoded(v, buf, at), at) == v,
{
    T::lemma_frame(v, buf, at);
    T::lemma_round_trip(v, buf, at, T::encoded(v, buf, at));
}

} // verus!
