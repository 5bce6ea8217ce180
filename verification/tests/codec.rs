use fluentbase_runtime::codec::buffer::{BufferDecoder, BufferEncoder};
use fluentbase_runtime::codec::encoder::Encoder;

fn encode_at_zero<T: Encoder>(value: &T) -> Vec<u8> {
    let mut encoder = BufferEncoder::new(T::HEADER_SIZE, None);
    value.encode(&mut encoder, 0);
    encoder.finalize()
}

fn decode_at_zero<T: Encoder + Default>(bytes: &[u8]) -> T {
    let mut decoder = BufferDecoder::new(bytes);
    assert!(T::is_decodable(&decoder, 0));
    let mut result = T::default();
    T::decode_body(&mut decoder, 0, &mut result);
    result
}

#[test]
fn byte_sequence_at_offset_zero() {
    let values: Vec<u8> = vec![0xAA, 0xBB, 0xCC];
    let bytes = encode_at_zero(&values);
    assert_eq!(
        bytes,
        vec![0x03, 0, 0, 0, 0x0C, 0, 0, 0, 0x03, 0, 0, 0, 0xAA, 0xBB, 0xCC]
    );
    assert_eq!(decode_at_zero::<Vec<u8>>(&bytes), values);
}

#[test]
fn header_sizes() {
    assert_eq!(<u8 as Encoder>::HEADER_SIZE, 1);
    assert_eq!(<u32 as Encoder>::HEADER_SIZE, 4);
    assert_eq!(<u64 as Encoder>::HEADER_SIZE, 8);
    assert_eq!(<Vec<u8> as Encoder>::HEADER_SIZE, 12);
    assert_eq!(<Vec<Vec<u64>> as Encoder>::HEADER_SIZE, 12);
}

#[test]
fn new_encoder_is_zeroed_header() {
    assert_eq!(BufferEncoder::new(5, Some(100)).finalize(), vec![0u8; 5]);
    assert_eq!(BufferEncoder::new(0, None).finalize(), Vec::<u8>::new());
    assert_eq!(BufferEncoder::new(3, Some(usize::MAX)).len(), 3);
}

#[test]
fn numbers_are_little_endian() {
    assert_eq!(encode_at_zero(&0x7Fu8), vec![0x7F]);
    assert_eq!(encode_at_zero(&0x1122_3344u32), vec![0x44, 0x33, 0x22, 0x11]);
    assert_eq!(
        encode_at_zero(&0x0102_0304_0506_0708u64),
        vec![0x08, 0x07, 0x06, 0x05, 0x04, 0x03, 0x02, 0x01]
    );
    assert_eq!(decode_at_zero::<u32>(&[0x44, 0x33, 0x22, 0x11]), 0x1122_3344);
    assert_eq!(
        decode_at_zero::<u64>(&[0x08, 0x07, 0x06, 0x05, 0x04, 0x03, 0x02, 0x01]),
        0x0102_0304_0506_0708
    );
    assert_eq!(decode_at_zero::<u8>(&[0xFE]), 0xFE);
}

#[test]
fn write_in_place_keeps_the_rest() {
    let mut encoder = BufferEncoder::new(8, None);
    encoder.write_u8(0, 0xAB);
    encoder.write_u32(2, 0xDEAD_BEEF);
    encoder.write_u8(7, 0x01);
    assert_eq!(
        encoder.finalize(),
        vec![0xAB, 0, 0xEF, 0xBE, 0xAD, 0xDE, 0, 0x01]
    );
}

#[test]
fn write_bytes_appends_and_points() {
    let mut encoder = BufferEncoder::new(10, None);
    encoder.write_bytes(1, &[9, 8, 7]);
    encoder.write_bytes(1, &[6]);
    let bytes = encoder.finalize();
    assert_eq!(
        bytes,
        vec![0, 13, 0, 0, 0, 1, 0, 0, 0, 0, 9, 8, 7, 6]
    );
    let decoder = BufferDecoder::new(&bytes);
    assert_eq!(decoder.read_bytes_header(1), (13, 1));
    assert_eq!(decoder.read_bytes(1), &[6]);
    assert_eq!(decoder.len(), 14);
}

#[test]
fn empty_sequence() {
    let values: Vec<u32> = vec![];
    let bytes = encode_at_zero(&values);
    assert_eq!(bytes, vec![0, 0, 0, 0, 12, 0, 0, 0, 0, 0, 0, 0]);
    assert_eq!(decode_at_zero::<Vec<u32>>(&bytes), values);
}

#[test]
fn sequence_of_numbers() {
    let values: Vec<u32> = vec![1, 0x0100, 0xFFFF_FFFF];
    let bytes = encode_at_zero(&values);
    assert_eq!(
        bytes,
        vec![
            3, 0, 0, 0, 12, 0, 0, 0, 12, 0, 0, 0, // header
            1, 0, 0, 0, 0, 1, 0, 0, 0xFF, 0xFF, 0xFF, 0xFF, // body
        ]
    );
    assert_eq!(decode_at_zero::<Vec<u32>>(&bytes), values);
}

#[test]
fn nested_sequences() {
    let values: Vec<Vec<u8>> = vec![vec![1, 2], vec![], vec![3]];
    let bytes = encode_at_zero(&values);
    assert_eq!(
        bytes,
        vec![
            3, 0, 0, 0, 12, 0, 0, 0, 39, 0, 0, 0, // outer header: 3 elements, body at 12, 39 bytes
            2, 0, 0, 0, 36, 0, 0, 0, 2, 0, 0, 0, // slot 0: 2 elements at 36
            0, 0, 0, 0, 38, 0, 0, 0, 0, 0, 0, 0, // slot 1: empty, at 38
            1, 0, 0, 0, 38, 0, 0, 0, 1, 0, 0, 0, // slot 2: 1 element at 38
            1, 2, 3, // what the elements appended
        ]
    );
    assert_eq!(decode_at_zero::<Vec<Vec<u8>>>(&bytes), values);
}

#[test]
fn round_trip_of_many_values() {
    let mut seed: u64 = 0x9E37_79B9_7F4A_7C15;
    let mut values: Vec<Vec<u64>> = Vec::new();
    for i in 0..20u64 {
        let mut inner = Vec::new();
        for _ in 0..(i % 7) {
            seed = seed.wrapping_mul(6364136223846793005).wrapping_add(1442695040888963407);
            inner.push(seed);
        }
        values.push(inner);
    }
    let bytes = encode_at_zero(&values);
    assert_eq!(decode_at_zero::<Vec<Vec<u64>>>(&bytes), values);
}

#[test]
fn sequence_at_a_later_field_offset() {
    let values: Vec<u8> = vec![5, 6];
    let mut encoder = BufferEncoder::new(16, None);
    encoder.write_u32(0, 0xCAFE_F00D);
    values.encode(&mut encoder, 4);
    let bytes = encoder.finalize();
    assert_eq!(
        bytes,
        vec![0x0D, 0xF0, 0xFE, 0xCA, 2, 0, 0, 0, 16, 0, 0, 0, 2, 0, 0, 0, 5, 6]
    );
    let mut decoder = BufferDecoder::new(&bytes);
    let mut result: Vec<u8> = Vec::new();
    <Vec<u8> as Encoder>::decode_body(&mut decoder, 4, &mut result);
    assert_eq!(result, values);
    assert_eq!(decoder.read_u32(0), 0xCAFE_F00D);
}

#[test]
fn decode_header_of_sequence_names_the_body() {
    let bytes = encode_at_zero(&vec![7u8, 8, 9, 10]);
    let mut decoder = BufferDecoder::new(&bytes);
    let mut result: Vec<u8> = vec![1];
    let body = <Vec<u8> as Encoder>::decode_header(&mut decoder, 0, &mut result);
    assert_eq!(body, (12, 4));
    assert_eq!(result, vec![1]);
    assert!(result.capacity() >= 5);
}

#[test]
fn decode_header_of_number_reads_it() {
    let mut decoder = BufferDecoder::new(&[0, 0x34, 0x12, 0, 0]);
    let mut result: u32 = 0;
    let body = <u32 as Encoder>::decode_header(&mut decoder, 1, &mut result);
    assert_eq!(body, (0, 0));
    assert_eq!(result, 0x1234);
}

#[test]
fn malformed_buffers_are_not_decodable() {
    let good = encode_at_zero(&vec![1u8, 2, 3]);
    // too short for a header
    assert!(!<Vec<u8> as Encoder>::is_decodable(&BufferDecoder::new(&good[..11]), 0));
    assert!(!<Vec<u8> as Encoder>::is_decodable(&BufferDecoder::new(&good), 4));
    assert!(!<Vec<u8> as Encoder>::is_decodable(&BufferDecoder::new(&good), usize::MAX));
    // body cut short
    assert!(!<Vec<u8> as Encoder>::is_decodable(&BufferDecoder::new(&good[..14]), 0));
    // more elements than the body has slots for
    let mut more = good.clone();
    more[0] = 4;
    assert!(!<Vec<u8> as Encoder>::is_decodable(&BufferDecoder::new(&more), 0));
    // fewer is fine
    let mut fewer = good.clone();
    fewer[0] = 2;
    assert_eq!(decode_at_zero::<Vec<u8>>(&fewer), vec![1, 2]);
    // numbers
    assert!(!<u32 as Encoder>::is_decodable(&BufferDecoder::new(&[1, 2, 3]), 0));
    assert!(!<u64 as Encoder>::is_decodable(&BufferDecoder::new(&[0; 8]), 1));
    assert!(<u64 as Encoder>::is_decodable(&BufferDecoder::new(&[0; 9]), 1));
    assert!(!<u8 as Encoder>::is_decodable(&BufferDecoder::new(&[]), 0));
}
