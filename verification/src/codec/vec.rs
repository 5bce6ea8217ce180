//! Dynamic sequences.
//!
//! A sequence takes twelve bytes of header: the number of its elements, then
//! the offset and the length of its body, each as 32 bits, little-endian.
//! The body starts with one header slot for each element, in order; what
//! the elements append comes behind the slots.

use vstd::prelude::*;
use crate::codec::buffer::{
    get_body, get_u32, has_body, keeps, lemma_get_u32, lemma_u32_le, put_body, put_u32,
    same_outside, u32_to_le, zeros, BufferDecoder, BufferEncoder,
};
use crate::codec::encoder::{lemma_decode_encode, Encoder};

verus! {

/// The body of the sequence `v` after its first `k` elements were encoded:
/// all header slots are there from the start, zeroed until their turn comes.
pub open spec fn encoded_items<T: Encoder>(v: Seq<T::Value>, k: nat) -> Seq<u8>
    decreases k,
{
    if k == 0 {
        zeros((T::HEADER_SIZE * v.len()) as nat)
    } else {
        T::encoded(v[k - 1], encoded_items::<T>(v, (k - 1) as nat), T::HEADER_SIZE * (k - 1))
    }
}

/// The values of the elements of `s`.
pub open spec fn values<T: Encoder>(s: Seq<T>) -> Seq<T::Value> {
    Seq::new(s.len(), |i: int| s[i].value())
}

/// Bytes that the first `k` elements of `v` append to the body, behind the
/// header slots.
pub open spec fn appended_by<T: Encoder>(v: Seq<T::Value>, k: nat) -> nat
    decreases k,
{
    if k == 0 {
        0
    } else {
        appended_by::<T>(v, (k - 1) as nat) + T::appended(v[k - 1])
    }
}

/// The body is its header slots and what the elements appended so far, and
/// encoding an element leaves the rest of the body as it was.
pub proof fn lemma_items_grow<T: Encoder>(v: Seq<T::Value>, k: nat)
    requires
        k <= v.len(),
    ensures
        encoded_items::<T>(v, k).len() == T::HEADER_SIZE * v.len() + appended_by::<T>(v, k),
        k > 0 ==> same_outside(
            encoded_items::<T>(v, (k - 1) as nat),
            encoded_items::<T>(v, k),
            T::HEADER_SIZE * (k - 1),
            T::HEADER_SIZE as int,
        ),
    decreases k,
{
    let h = T::HEADER_SIZE as int;
    let n = v.len() as int;
    assert(0 <= h * n) by (nonlinear_arith)
        requires
            0 <= h,
            0 <= n,
    ;
    if k > 0 {
        lemma_items_grow::<T>(v, (k - 1) as nat);
        assert(0 <= h * (k - 1) && h * (k - 1) + h <= h * n) by (nonlinear_arith)
            requires
                0 <= h,
                1 <= k <= n,
        ;
        T::lemma_frame(v[k - 1], encoded_items::<T>(v, (k - 1) as nat), h * (k - 1));
    }
}

/// What the elements append only grows.
pub proof fn lemma_appended_grows<T: Encoder>(v: Seq<T::Value>, i: nat, k: nat)
    requires
        i <= k <= v.len(),
    ensures
        appended_by::<T>(v, i) <= appended_by::<T>(v, k),
    decreases k,
{
    if i < k {
        lemma_appended_grows::<T>(v, i, (k - 1) as nat);
    }
}

/// Where no element appends anything, the elements together append
/// nothing: the body is its header slots.
pub proof fn lemma_appended_flat<T: Encoder>(v: Seq<T::Value>, k: nat)
    requires
        k <= v.len(),
        forall|x: T::Value| #[trigger] T::appended(x) == 0,
    ensures
        appended_by::<T>(v, k) == 0,
    decreases k,
{
    if k > 0 {
        lemma_appended_flat::<T>(v, (k - 1) as nat);
    }
}

/// The values of bytes are the bytes.
pub proof fn lemma_values_of_bytes(s: Seq<u8>)
    ensures
        values::<u8>(s) == s,
{
    assert(values::<u8>(s) =~= s);
}

/// Once element `i` is encoded, its header slot and what it appended stay
/// as they are while the elements after it are encoded.
pub proof fn lemma_items_keep<T: Encoder>(v: Seq<T::Value>, i: nat, k: nat)
    requires
        i < k <= v.len(),
    ensures
        keeps(
            encoded_items::<T>(v, i + 1),
            encoded_items::<T>(v, k),
            encoded_items::<T>(v, i).len() as int,
            T::HEADER_SIZE * i,
            T::HEADER_SIZE as int,
        ),
    decreases k,
{
    if k > i + 1 {
        let h = T::HEADER_SIZE as int;
        let n = v.len() as int;
        let before = encoded_items::<T>(v, (k - 1) as nat);
        let after = encoded_items::<T>(v, k);
        let done = encoded_items::<T>(v, i + 1);
        let base = encoded_items::<T>(v, i).len() as int;
        lemma_items_keep::<T>(v, i, (k - 1) as nat);
        lemma_items_grow::<T>(v, k);
        lemma_items_grow::<T>(v, (k - 1) as nat);
        lemma_items_grow::<T>(v, i + 1);
        lemma_items_grow::<T>(v, i);
        assert(h * i + h <= h * (k - 1) && h * (k - 1) + h <= h * n && 0 <= h * i) by (nonlinear_arith)
            requires
                0 <= h,
                0 <= i,
                i + 1 <= k - 1,
                k <= n,
        ;
        assert forall|j: int| h * i <= j < h * i + h implies after[j] == done[j] by {
            assert(before[j] == done[j]);
        }
        assert forall|j: int| base <= j < done.len() implies after[j] == done[j] by {
            assert(before[j] == done[j]);
        }
    }
}

/// Every element of an encoded sequence is decoded again from its body.
pub proof fn lemma_items_round_trip<T: Encoder>(v: Seq<T::Value>, i: int)
    requires
        0 <= i < v.len(),
        forall|k: int| 0 <= k < v.len() ==> T::in_range(#[trigger] v[k]),
        T::HEADER_SIZE * v.len() + appended_by::<T>(v, v.len()) <= u32::MAX,
    ensures
        T::decodable(encoded_items::<T>(v, v.len()), T::HEADER_SIZE * i),
        T::decoded(encoded_items::<T>(v, v.len()), T::HEADER_SIZE * i) == v[i],
{
    let h = T::HEADER_SIZE as int;
    let n = v.len() as int;
    lemma_items_grow::<T>(v, i as nat);
    lemma_items_grow::<T>(v, (i + 1) as nat);
    lemma_appended_grows::<T>(v, (i + 1) as nat, v.len());
    lemma_items_keep::<T>(v, i as nat, v.len());
    assert(0 <= h * i && h * i + h <= h * n) by (nonlinear_arith)
        requires
            0 <= h,
            0 <= i < n,
    ;
    assert(T::in_range(v[i]));
    assert(encoded_items::<T>(v, (i + 1) as nat) == T::encoded(
        v[i],
        encoded_items::<T>(v, i as nat),
        h * i,
    ));
    T::lemma_round_trip(
        v[i],
        encoded_items::<T>(v, i as nat),
        h * i,
        encoded_items::<T>(v, v.len()),
    );
}

impl<T: Encoder + Default> Encoder for Vec<T> {
    type Value = Seq<T::Value>;

    const HEADER_SIZE: usize = 12;

    open spec fn header_size() -> nat {
        12
    }

    open spec fn value(&self) -> Seq<T::Value> {
        values(self@)
    }

    open spec fn encoded(v: Seq<T::Value>, buf: Seq<u8>, at: int) -> Seq<u8> {
        put_body(
            put_u32(buf, at, v.len() as usize as u32),
            at + 4,
            encoded_items::<T>(v, v.len()),
        )
    }

    open spec fn encodable(v: Seq<T::Value>) -> bool {
        &&& T::HEADER_SIZE * v.len() <= usize::MAX
        &&& forall|i: int| 0 <= i < v.len() ==> T::encodable(#[trigger] v[i])
    }

    open spec fn appended(v: Seq<T::Value>) -> nat {
        (T::HEADER_SIZE * v.len() + appended_by::<T>(v, v.len())) as nat
    }

    open spec fn in_range(v: Seq<T::Value>) -> bool {
        &&& v.len() <= u32::MAX
        &&& forall|k: int| 0 <= k < v.len() ==> T::in_range(#[trigger] v[k])
    }

    open spec fn decodable(buf: Seq<u8>, at: int) -> bool {
        &&& 0 <= at
        &&& at + 12 <= buf.len()
        &&& has_body(buf, at + 4)
        &&& forall|i: int|
            0 <= i < get_u32(buf, at) ==> T::decodable(
                get_body(buf, at + 4),
                #[trigger] (T::HEADER_SIZE * i),
            )
    }

    open spec fn decoded(buf: Seq<u8>, at: int) -> Seq<T::Value> {
        Seq::new(
            get_u32(buf, at) as nat,
            |i: int| T::decoded(get_body(buf, at + 4), T::HEADER_SIZE * i),
        )
    }

    open spec fn body_range(buf: Seq<u8>, at: int) -> (int, int) {
        (get_u32(buf, at + 4) as int, get_u32(buf, at + 8) as int)
    }

    open spec fn header_decoded(before: Seq<T::Value>, buf: Seq<u8>, at: int) -> Seq<T::Value> {
        before
    }

    proof fn lemma_header_size() {
    }

    proof fn lemma_frame(v: Seq<T::Value>, buf: Seq<u8>, at: int) {
        lemma_u32_le();
        lemma_items_grow::<T>(v, v.len());
    }

    proof fn lemma_round_trip(v: Seq<T::Value>, buf: Seq<u8>, at: int, later: Seq<u8>) {
        lemma_u32_le();
        lemma_items_grow::<T>(v, v.len());
        let body = encoded_items::<T>(v, v.len());
        let count = v.len() as usize as u32;
        let offset = buf.len() as usize as u32;
        let length = body.len() as usize as u32;
        let b1 = put_u32(buf, at, count);
        let b2 = put_u32(b1, at + 4, offset);
        let b3 = put_u32(b2, at + 8, length);
        let out = Self::encoded(v, buf, at);
        assert(out == b3 + body);
        assert forall|i: int| 0 <= i < 4 implies later[at + i] == u32_to_le(count)[i] by {
            assert(later[at + i] == out[at + i]);
        }
        lemma_get_u32(later, at, count);
        assert forall|i: int| 0 <= i < 4 implies later[at + 4 + i] == u32_to_le(
            offset,
        )[i] by {
            assert(later[at + 4 + i] == out[at + 4 + i]);
        }
        lemma_get_u32(later, at + 4, offset);
        assert forall|i: int| 0 <= i < 4 implies later[at + 8 + i] == u32_to_le(
            length,
        )[i] by {
            assert(later[at + 8 + i] == out[at + 8 + i]);
        }
        lemma_get_u32(later, at + 8, length);
        assert(get_body(later, at + 4) =~= body) by {
            assert forall|j: int| 0 <= j < body.len() implies later[buf.len() + j] == body[j] by {
                assert(later[buf.len() + j] == out[buf.len() + j]);
            }
        }
        assert forall|i: int| 0 <= i < v.len() implies T::decodable(
            body,
            #[trigger] (T::HEADER_SIZE * i),
        ) && T::decoded(body, T::HEADER_SIZE * i) == v[i] by {
            lemma_items_round_trip::<T>(v, i);
        }
        assert(Self::decoded(later, at) =~= v);
    }

    proof fn lemma_decodable(buf: Seq<u8>, at: int) {
    }

    fn encode(&self, encoder: &mut BufferEncoder, field_offset: usize) {
        proof {
            encoder.lemma_bounded();
        }
        let n: usize = self.len();
        encoder.write_u32(field_offset, #[verifier::truncate] (n as u32));
        let mut value_encoder = BufferEncoder::new(T::HEADER_SIZE * n, None);
        let ghost v = self.value();
        let mut i: usize = 0;
        while i < n
            invariant
                i <= n,
                n == self@.len(),
                v == values(self@),
                Self::encodable(v),
                value_encoder@ == encoded_items::<T>(v, i as nat),
            decreases n - i,
        {
            proof {
                lemma_items_grow::<T>(v, i as nat);
                let h = T::HEADER_SIZE as int;
                assert(0 <= h * i && h * i + h <= h * n) by (nonlinear_arith)
                    requires
                        0 <= h,
                        0 <= i < n,
                ;
                assert(v[i as int] == self@[i as int].value());
            }
            self[i].encode(&mut value_encoder, T::HEADER_SIZE * i);
            i = i + 1;
        }
        let body = value_encoder.finalize();
        encoder.write_bytes(field_offset + 4, body.as_slice());
    }

    fn is_decodable(decoder: &BufferDecoder, field_offset: usize) -> (ok: bool) {
        let total: usize = decoder.len();
        if total < 12 || field_offset > total - 12 {
            return false;
        }
        let input_len: usize = decoder.read_u32(field_offset) as usize;
        let (offset, length) = decoder.read_bytes_header(field_offset + 4);
        if offset > total || length > total - offset {
            return false;
        }
        let input_bytes = decoder.read_bytes(field_offset + 4);
        let value_decoder = BufferDecoder::new(input_bytes);
        let mut i: usize = 0;
        while i < input_len
            invariant
                i <= input_len,
                value_decoder@ == input_bytes@,
                input_len == get_u32(decoder@, field_offset as int),
                input_bytes@ == get_body(decoder@, field_offset + 4),
                field_offset + 12 <= decoder@.len(),
                has_body(decoder@, field_offset + 4),
                forall|k: int|
                    0 <= k < i ==> T::decodable(input_bytes@, #[trigger] (T::HEADER_SIZE * k)),
            decreases input_len - i,
        {
            let ok = match T::HEADER_SIZE.checked_mul(i) {
                Some(at) => T::is_decodable(&value_decoder, at),
                None => {
                    proof {
                        value_decoder.lemma_bounded();
                        if T::decodable(input_bytes@, T::HEADER_SIZE * (i as int)) {
                            T::lemma_decodable(input_bytes@, T::HEADER_SIZE * (i as int));
                        }
                    }
                    false
                },
            };
            if !ok {
                assert(!T::decodable(input_bytes@, T::HEADER_SIZE * (i as int)));
                return false;
            }
            i = i + 1;
        }
        true
    }

    fn decode_header(decoder: &mut BufferDecoder, field_offset: usize, result: &mut Vec<T>) -> (body:
        (usize, usize)) {
        proof {
            decoder.lemma_bounded();
        }
        let input_len: usize = decoder.read_u32(field_offset) as usize;
        result.reserve(input_len);
        decoder.read_bytes_header(field_offset + 4)
    }

    fn decode_body(decoder: &mut BufferDecoder, field_offset: usize, result: &mut Vec<T>) {
        proof {
            decoder.lemma_bounded();
        }
        let input_len: usize = decoder.read_u32(field_offset) as usize;
        let input_bytes = decoder.read_bytes(field_offset + 4);
        let mut value_decoder = BufferDecoder::new(input_bytes);
        let mut items: Vec<T> = Vec::new();
        let mut i: usize = 0;
        while i < input_len
            invariant
                i <= input_len,
                value_decoder@ == input_bytes@,
                forall|k: int|
                    0 <= k < input_len ==> T::decodable(
                        input_bytes@,
                        #[trigger] (T::HEADER_SIZE * k),
                    ),
                items@.len() == i,
                forall|k: int|
                    0 <= k < i ==> (#[trigger] items@[k]).value() == T::decoded(
                        input_bytes@,
                        T::HEADER_SIZE * k,
                    ),
            decreases input_len - i,
        {
            proof {
                assert(T::decodable(input_bytes@, T::HEADER_SIZE * (i as int)));
                T::lemma_decodable(input_bytes@, T::HEADER_SIZE * (i as int));
                value_decoder.lemma_bounded();
            }
            let mut item = T::default();
            T::decode_body(&mut value_decoder, T::HEADER_SIZE * i, &mut item);
            items.push(item);
            i = i + 1;
        }
        *result = items;
        assert(result.value() =~= Self::decoded(decoder@, field_offset as int));
    }
}

} // verus!

verus! {

/// The body of a byte sequence, while it is encoded: the bytes that had
/// their turn, and zeros for the rest.
pub proof fn lemma_items_of_bytes(bytes: Seq<u8>, k: nat)
    requires
        k <= bytes.len(),
    ensures
        encoded_items::<u8>(bytes, k) == bytes.subrange(0, k as int) + zeros(
            (bytes.len() - k) as nat,
        ),
    decreases k,
{
    <u8 as Encoder>::lemma_header_size();
    if k == 0 {
        assert(encoded_items::<u8>(bytes, 0) =~= bytes.subrange(0, 0) + zeros(bytes.len()));
    } else {
        lemma_items_of_bytes(bytes, (k - 1) as nat);
        assert(encoded_items::<u8>(bytes, k) =~= bytes.subrange(0, k as int) + zeros(
            (bytes.len() - k) as nat,
        ));
    }
}

/// A byte sequence is encoded as its count, then the offset and the length
/// of its body, and as body the bytes themselves behind the end of the
/// buffer; and it is decoded again, where the buffer with the bytes in it
/// is shorter than 2^32 bytes.
pub proof fn lemma_byte_sequence(bytes: Seq<u8>, buf: Seq<u8>, at: int)
    requires
        0 <= at,
        at + 12 <= buf.len(),
        buf.len() + bytes.len() <= u32::MAX,
    ensures
        <Vec<u8> as Encoder>::encoded(bytes, buf, at) == put_body(
            put_u32(buf, at, bytes.len() as u32),
            at + 4,
            bytes,
        ),
        <Vec<u8> as Encoder>::decodable(<Vec<u8> as Encoder>::encoded(bytes, buf, at), at),
        <Vec<u8> as Encoder>::decoded(<Vec<u8> as Encoder>::encoded(bytes, buf, at), at) == bytes,
{
    <u8 as Encoder>::lemma_header_size();
    lemma_items_of_bytes(bytes, bytes.len());
    assert(encoded_items::<u8>(bytes, bytes.len()) =~= bytes);
    lemma_appended_flat::<u8>(bytes, bytes.len());
    lemma_decode_encode::<Vec<u8>>(bytes, buf, at);
}

} // verus!
