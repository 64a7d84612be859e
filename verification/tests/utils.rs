use tattoy::utils::decimal_chars;
use tattoy::utils::push_decimal;
use tattoy::utils::push_text;
use tattoy::utils::safe_add;
use tattoy::utils::simple_hash;

#[test]
fn safe_add_wraps_on_overflow() {
    assert_eq!(safe_add(1, 2), 3);
    assert_eq!(safe_add(u64::MAX, 1), 0);
    assert_eq!(safe_add(u64::MAX, u64::MAX), u64::MAX - 1);
}

#[test]
fn simple_hash_of_bytes() {
    assert_eq!(simple_hash(&[]), 0);
    assert_eq!(simple_hash(&[7]), 7);
    assert_eq!(simple_hash(&[1, 2]), 35);
    assert_eq!(simple_hash(&[1, 2, 3]), 35 * 33 + 3);
}

#[test]
fn simple_hash_wraps_around() {
    let input = vec![255u8; 64];
    let mut expected: u64 = 0;
    for byte in &input {
        expected = expected.wrapping_mul(33).wrapping_add(u64::from(*byte));
    }
    assert_eq!(simple_hash(&input), expected);
}

#[test]
fn numbers_are_written_in_decimal() {
    for number in [0usize, 7, 10, 42, 255, 1000, 65535] {
        let written: String = decimal_chars(number).iter().collect();
        assert_eq!(written, number.to_string());
    }
    let mut text = String::new();
    push_text(&mut text, "row ");
    push_decimal(&mut text, 120);
    assert_eq!(text, "row 120");
}
