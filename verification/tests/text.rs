use stt::text::score_text;

#[test]
fn payload_carries_the_confidence_at_two_decimals() {
    assert_eq!(score_text(510_000), b"hello: 0.51\n".to_vec());
    assert_eq!(score_text(500_000), b"hello: 0.50\n".to_vec());
    assert_eq!(score_text(0), b"hello: 0.00\n".to_vec());
    assert_eq!(score_text(1_000_000), b"hello: 1.00\n".to_vec());
}

#[test]
fn payload_rounds_half_up_to_hundredths() {
    assert_eq!(score_text(505_000), b"hello: 0.51\n".to_vec());
    assert_eq!(score_text(504_999), b"hello: 0.50\n".to_vec());
    assert_eq!(score_text(999_999), b"hello: 1.00\n".to_vec());
}

#[test]
fn out_of_range_confidences_still_render() {
    assert_eq!(score_text(2_345_000), b"hello: 2.35\n".to_vec());
    assert_eq!(score_text(12_000_000), b"hello: 12.00\n".to_vec());
}
