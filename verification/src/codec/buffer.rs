//! Byte buffers with a header region and a trailing body region.

use vstd::prelude::*;
use vstd::slice::slice_subrange;

verus! {

/// `n` zero bytes.
pub open spec fn zeros(n: nat) -> Seq<u8> {
    Seq::new(n, |i: int| 0u8)
}

/// `buf` with the bytes from `at` on replaced by `bytes`.
pub open spec fn put_bytes(buf: Seq<u8>, at: int, bytes: Seq<u8>) -> Seq<u8> {
    Seq::new(
        buf.len(),
        |i: int|
            if at <= i < at + bytes.len() {
                bytes[i - at]
            } else {
                buf[i]
            },
    )
}

/// The four bytes of `value`, the lowest first.
pub open spec fn u32_to_le(value: u32) -> Seq<u8> {
    seq![
        (value % 0x100) as u8,
        (value / 0x100 % 0x100) as u8,
        (value / 0x1_0000 % 0x100) as u8,
        (value / 0x100_0000) as u8,
    ]
}

/// The number whose four bytes `bytes` are, the lowest first.
pub open spec fn u32_from_le(bytes: Seq<u8>) -> u32 {
    (bytes[0] + bytes[1] * 0x100 + bytes[2] * 0x1_0000 + bytes[3] * 0x100_0000) as u32
}

/// The eight bytes of `value`, the lowest first: the bytes of its lower
/// half, then those of its upper half.
pub open spec fn u64_to_le(value: u64) -> Seq<u8> {
    u32_to_le((value % 0x1_0000_0000) as u32) + u32_to_le((value / 0x1_0000_0000) as u32)
}

/// The number whose eight bytes `bytes` are, the lowest first.
pub open spec fn u64_from_le(bytes: Seq<u8>) -> u64 {
    (u32_from_le(bytes.subrange(0, 4)) + u32_from_le(bytes.subrange(4, 8)) * 0x1_0000_0000) as u64
}

/// `buf` with the four bytes at `at` replaced by `value`, little-endian.
pub open spec fn put_u32(buf: Seq<u8>, at: int, value: u32) -> Seq<u8> {
    put_bytes(buf, at, u32_to_le(value))
}

/// The little-endian 32-bit number that `buf` holds at `at`.
pub open spec fn get_u32(buf: Seq<u8>, at: int) -> u32 {
    u32_from_le(buf.subrange(at, at + 4))
}

/// `buf` with the eight bytes at `at` replaced by `value`, little-endian.
pub open spec fn put_u64(buf: Seq<u8>, at: int, value: u64) -> Seq<u8> {
    put_bytes(buf, at, u64_to_le(value))
}

/// The little-endian 64-bit number that `buf` holds at `at`.
pub open spec fn get_u64(buf: Seq<u8>, at: int) -> u64 {
    u64_from_le(buf.subrange(at, at + 8))
}

/// A 32-bit number has four bytes and is the number of its bytes.
pub proof fn lemma_u32_le()
    ensures
        forall|value: u32|
            {
                &&& (#[trigger] u32_to_le(value)).len() == 4
                &&& u32_from_le(u32_to_le(value)) == value
            },
{
}

/// A 64-bit number has eight bytes and is the number of its bytes.
pub proof fn lemma_u64_le()
    ensures
        forall|value: u64|
            {
                &&& (#[trigger] u64_to_le(value)).len() == 8
                &&& u64_from_le(u64_to_le(value)) == value
            },
{
    lemma_u32_le();
    assert forall|value: u64|
        {
            &&& (#[trigger] u64_to_le(value)).len() == 8
            &&& u64_from_le(u64_to_le(value)) == value
        } by {
        let low = (value % 0x1_0000_0000) as u32;
        let high = (value / 0x1_0000_0000) as u32;
        assert(u64_to_le(value).subrange(0, 4) =~= u32_to_le(low));
        assert(u64_to_le(value).subrange(4, 8) =~= u32_to_le(high));
    }
}

/// `buf` after a byte string was attached at the header slot `at`: the slot
/// receives the string's offset and length, the string goes to the end.
pub open spec fn put_body(buf: Seq<u8>, at: int, bytes: Seq<u8>) -> Seq<u8> {
    put_u32(
        put_u32(buf, at, buf.len() as usize as u32),
        at + 4,
        bytes.len() as usize as u32,
    ) + bytes
}

/// The byte string that the header slot `at` of `buf` points to.
pub open spec fn get_body(buf: Seq<u8>, at: int) -> Seq<u8> {
    let offset = get_u32(buf, at) as int;
    let length = get_u32(buf, at + 4) as int;
    buf.subrange(offset, offset + length)
}

/// Whether the header slot `at` of `buf` points to bytes inside `buf`.
pub open spec fn has_body(buf: Seq<u8>, at: int) -> bool {
    &&& 0 <= at
    &&& at + 8 <= buf.len()
    &&& get_u32(buf, at) + get_u32(buf, at + 4) <= buf.len()
}

/// A growing buffer: a header region of fixed length, written in place, and
/// a body region that byte strings are appended to.
pub struct BufferEncoder {
    buffer: Vec<u8>,
}

impl View for BufferEncoder {
    type V = Seq<u8>;

    closed spec fn view(&self) -> Seq<u8> {
        self.buffer@
    }
}

impl BufferEncoder {
    /// A buffer of `header_length` zero bytes. `data_length` is a hint for
    /// the room that the body will need.
    pub fn new(header_length: usize, data_length: Option<usize>) -> (encoder: Self)
        ensures
            encoder@ == zeros(header_length as nat),
    {
        let extra: usize = match data_length {
            Some(n) => n,
            None => 0,
        };
        let room: usize = match header_length.checked_add(extra) {
            Some(n) => n,
            None => header_length,
        };
        let mut buffer: Vec<u8> = Vec::with_capacity(room);
        let mut i: usize = 0;
        while i < header_length
            invariant
                i <= header_length,
                buffer@ == zeros(i as nat),
            decreases header_length - i,
        {
            buffer.push(0u8);
            i = i + 1;
            assert(buffer@ =~= zeros(i as nat));
        }
        BufferEncoder { buffer }
    }

    /// Number of bytes written so far, header included.
    pub fn len(&self) -> (n: usize)
        ensures
            n == self@.len(),
    {
        self.buffer.len()
    }

    /// A buffer's length is a machine number.
    pub proof fn lemma_bounded(&self)
        ensures
            self@.len() <= usize::MAX,
    {
        assert(self.buffer.len() == self.buffer@.len());
    }

    /// The bytes of the buffer.
    pub fn finalize(self) -> (bytes: Vec<u8>)
        ensures
            bytes@ == self@,
    {
        self.buffer
    }

    /// Writes one byte into the header at `field_offset`.
    pub fn write_u8(&mut self, field_offset: usize, value: u8)
        requires
            field_offset < old(self)@.len(),
        ensures
            final(self)@ == old(self)@.update(field_offset as int, value),
    {
        self.buffer.set(field_offset, value);
    }

    /// Writes `bytes` over the buffer from `field_offset` on.
    fn write_at(&mut self, field_offset: usize, bytes: &Vec<u8>)
        requires
            field_offset + bytes@.len() <= old(self)@.len(),
        ensures
            final(self)@ == put_bytes(old(self)@, field_offset as int, bytes@),
    {
        proof {
            self.lemma_bounded();
        }
        let n: usize = bytes.len();
        let mut i: usize = 0;
        while i < n
            invariant
                i <= n,
                n == bytes@.len(),
                field_offset + n <= old(self)@.len() <= usize::MAX,
                self.buffer@ == put_bytes(old(self)@, field_offset as int, bytes@.subrange(0, i as int)),
            decreases n - i,
        {
            self.buffer.set(field_offset + i, bytes[i]);
            i = i + 1;
            assert(self.buffer@ =~= put_bytes(
                old(self)@,
                field_offset as int,
                bytes@.subrange(0, i as int),
            ));
        }
        assert(bytes@.subrange(0, n as int) =~= bytes@);
    }

    /// Writes `value` into the header at `field_offset`, little-endian.
    pub fn write_u32(&mut self, field_offset: usize, value: u32)
        requires
            field_offset + 4 <= old(self)@.len(),
        ensures
            final(self)@ == put_u32(old(self)@, field_offset as int, value),
    {
        let mut bytes: Vec<u8> = Vec::with_capacity(4);
        bytes.push((value % 0x100) as u8);
        bytes.push((value / 0x100 % 0x100) as u8);
        bytes.push((value / 0x1_0000 % 0x100) as u8);
        bytes.push((value / 0x100_0000) as u8);
        assert(bytes@ =~= u32_to_le(value));
        self.write_at(field_offset, &bytes);
    }

    /// Writes `value` into the header at `field_offset`, little-endian.
    pub fn write_u64(&mut self, field_offset: usize, value: u64)
        requires
            field_offset + 8 <= old(self)@.len(),
        ensures
            final(self)@ == put_u64(old(self)@, field_offset as int, value),
    {
        let low: u32 = (value % 0x1_0000_0000) as u32;
        let high: u32 = (value / 0x1_0000_0000) as u32;
        let mut bytes: Vec<u8> = Vec::with_capacity(8);
        bytes.push((low % 0x100) as u8);
        bytes.push((low / 0x100 % 0x100) as u8);
        bytes.push((low / 0x1_0000 % 0x100) as u8);
        bytes.push((low / 0x100_0000) as u8);
        bytes.push((high % 0x100) as u8);
        bytes.push((high / 0x100 % 0x100) as u8);
        bytes.push((high / 0x1_0000 % 0x100) as u8);
        bytes.push((high / 0x100_0000) as u8);
        assert(bytes@ =~= u64_to_le(value));
        self.write_at(field_offset, &bytes);
    }

    /// Appends `bytes` to the body and records where they went: the header
    /// slot at `field_offset` receives their offset in the buffer and their
    /// length, each as 32 bits, little-endian.
    pub fn write_bytes(&mut self, field_offset: usize, bytes: &[u8])
        requires
            field_offset + 8 <= old(self)@.len(),
        ensures
            final(self)@ == put_body(old(self)@, field_offset as int, bytes@),
    {
        let data_offset: usize = self.buffer.len();
        let data_length: usize = bytes.len();
        self.write_u32(field_offset, #[verifier::truncate] (data_offset as u32));
        self.write_u32(field_offset + 4, #[verifier::truncate] (data_length as u32));
        let ghost before = self.buffer@;
        self.buffer.extend_from_slice(bytes);
        assert(self.buffer@ =~= before + bytes@);
    }
}

/// A read-only view of an encoded buffer.
pub struct BufferDecoder<'a> {
    buffer: &'a [u8],
}

impl<'a> View for BufferDecoder<'a> {
    type V = Seq<u8>;

    closed spec fn view(&self) -> Seq<u8> {
        self.buffer@
    }
}

impl<'a> BufferDecoder<'a> {
    /// A decoder over `input`.
    pub fn new(input: &'a [u8]) -> (decoder: Self)
        ensures
            decoder@ == input@,
    {
        BufferDecoder { buffer: input }
    }

    /// Number of bytes in the buffer.
    pub fn len(&self) -> (n: usize)
        ensures
            n == self@.len(),
    {
        self.buffer.len()
    }

    /// A buffer's length is a machine number.
    pub proof fn lemma_bounded(&self)
        ensures
            self@.len() <= usize::MAX,
    {
        assert(self.buffer.len() == self.buffer@.len());
    }

    /// The byte at `field_offset`.
    pub fn read_u8(&self, field_offset: usize) -> (value: u8)
        requires
            field_offset < self@.len(),
        ensures
            value == self@[field_offset as int],
    {
        self.buffer[field_offset]
    }

    /// The little-endian 32-bit number at `field_offset`.
    pub fn read_u32(&self, field_offset: usize) -> (value: u32)
        requires
            field_offset + 4 <= self@.len(),
        ensures
            value == get_u32(self@, field_offset as int),
    {
        proof {
            self.lemma_bounded();
        }
        let b0: u32 = self.buffer[field_offset] as u32;
        let b1: u32 = self.buffer[field_offset + 1] as u32;
        let b2: u32 = self.buffer[field_offset + 2] as u32;
        let b3: u32 = self.buffer[field_offset + 3] as u32;
        b0 + b1 * 0x100 + b2 * 0x1_0000 + b3 * 0x100_0000
    }

    /// The little-endian 64-bit number at `field_offset`.
    pub fn read_u64(&self, field_offset: usize) -> (value: u64)
        requires
            field_offset + 8 <= self@.len(),
        ensures
            value == get_u64(self@, field_offset as int),
    {
        proof {
            self.lemma_bounded();
        }
        let low: u32 = self.read_u32(field_offset);
        let high: u32 = self.read_u32(field_offset + 4);
        proof {
            let bytes = self@.subrange(field_offset as int, field_offset + 8);
            assert(bytes.subrange(0, 4) =~= self@.subrange(field_offset as int, field_offset + 4));
            assert(bytes.subrange(4, 8) =~= self@.subrange(field_offset + 4, field_offset + 8));
        }
        low as u64 + high as u64 * 0x1_0000_0000
    }

    /// Offset and length of the byte string that the header slot at
    /// `field_offset` points to.
    pub fn read_bytes_header(&self, field_offset: usize) -> (header: (usize, usize))
        requires
            field_offset + 8 <= self@.len(),
        ensures
            header.0 == get_u32(self@, field_offset as int),
            header.1 == get_u32(self@, field_offset + 4),
    {
        proof {
            self.lemma_bounded();
        }
        let bytes_offset: usize = self.read_u32(field_offset) as usize;
        let bytes_length: usize = self.read_u32(field_offset + 4) as usize;
        (bytes_offset, bytes_length)
    }

    /// The byte string that the header slot at `field_offset` points to.
    pub fn read_bytes(&self, field_offset: usize) -> (bytes: &'a [u8])
        requires
            has_body(self@, field_offset as int),
        ensures
            bytes@ == get_body(self@, field_offset as int),
    {
        proof {
            self.lemma_bounded();
        }
        let (bytes_offset, bytes_length) = self.read_bytes_header(field_offset);
        slice_subrange(self.buffer, bytes_offset, bytes_offset + bytes_length)
    }
}

} // verus!

verus! {

/// Bytes of `buf` that lie before `buf`'s end and outside the `h` bytes at
/// `at` are the same in `out`, and `out` is at least as long.
pub open spec fn same_outside(buf: Seq<u8>, out: Seq<u8>, at: int, h: int) -> bool {
    &&& out.len() >= buf.len()
    &&& forall|i: int| 0 <= i < buf.len() && !(at <= i < at + h) ==> out[i] == buf[i]
}

/// `later` holds what `out` holds in the `h` bytes at `at` and from `base`
/// to the end of `out`.
pub open spec fn keeps(out: Seq<u8>, later: Seq<u8>, base: int, at: int, h: int) -> bool {
    &&& later.len() >= out.len()
    &&& forall|i: int| at <= i < at + h ==> later[i] == out[i]
    &&& forall|i: int| base <= i < out.len() ==> later[i] == out[i]
}

/// A 32-bit number is read back from wherever its four bytes stand.
pub proof fn lemma_get_u32(buf: Seq<u8>, at: int, value: u32)
    requires
        0 <= at,
        at + 4 <= buf.len(),
        forall|i: int| 0 <= i < 4 ==> buf[at + i] == u32_to_le(value)[i],
    ensures
        get_u32(buf, at) == value,
{
    lemma_u32_le();
    assert(buf.subrange(at, at + 4) =~= u32_to_le(value));
}

/// A 64-bit number is read back from wherever its eight bytes stand.
pub proof fn lemma_get_u64(buf: Seq<u8>, at: int, value: u64)
    requires
        0 <= at,
        at + 8 <= buf.len(),
        forall|i: int| 0 <= i < 8 ==> buf[at + i] == u64_to_le(value)[i],
    ensures
        get_u64(buf, at) == value,
{
    lemma_u64_le();
    assert(buf.subrange(at, at + 8) =~= u64_to_le(value));
}

} // verus!
