use stt::errors::StreamError;
use stt::samples::parse_batch;

#[test]
fn even_byte_batches_become_one_sample_per_pair() {
    let bytes: Vec<u8> = vec![0x34, 0x12, 0x00, 0x80];
    let samples = parse_batch(&bytes).expect("four bytes are two samples");
    assert_eq!(samples.len(), 2);
    assert_eq!(samples[0], i16::from_ne_bytes([0x34, 0x12]));
    assert_eq!(samples[1], i16::from_ne_bytes([0x00, 0x80]));
}

#[test]
fn odd_byte_batches_are_a_sample_format_error() {
    let bytes: Vec<u8> = vec![1, 2, 3];
    assert_eq!(parse_batch(&bytes), Err(StreamError::SampleFormatError));
}

#[test]
fn empty_byte_batches_are_zero_samples() {
    let bytes: Vec<u8> = vec![];
    let samples = parse_batch(&bytes).expect("empty input is fine");
    assert!(samples.is_empty());
}
