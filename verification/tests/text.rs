use block_import::text::{digit_char, push_abbreviated_root, push_decimal, push_hex_byte};

#[test]
fn digit_chars_cover_all_sixteen_values() {
    let expected = "0123456789abcdef";
    let mut got = String::new();
    for d in 0u8..16 {
        got.push(digit_char(d));
    }
    assert_eq!(got, expected);
}

#[test]
fn decimal_of_zero_is_one_digit() {
    let mut s = String::new();
    push_decimal(&mut s, 0);
    assert_eq!(s, "0");
}

#[test]
fn decimal_appends_after_existing_text() {
    let mut s = String::from("slot ");
    push_decimal(&mut s, 1234567890);
    assert_eq!(s, "slot 1234567890");
}

#[test]
fn decimal_of_largest_value() {
    let mut s = String::new();
    push_decimal(&mut s, u64::MAX);
    assert_eq!(s, "18446744073709551615");
    assert_eq!(s, format!("{}", u64::MAX));
}

#[test]
fn decimal_at_powers_of_ten() {
    for n in [9u64, 10, 11, 99, 100, 101, 1000] {
        let mut s = String::new();
        push_decimal(&mut s, n);
        assert_eq!(s, format!("{}", n));
    }
}

#[test]
fn hex_byte_has_two_lower_case_digits() {
    for b in [0u8, 1, 9, 10, 15, 16, 0x7f, 0xab, 0xff] {
        let mut s = String::new();
        push_hex_byte(&mut s, b);
        assert_eq!(s, format!("{:02x}", b));
    }
}

#[test]
fn abbreviated_root_shows_first_and_last_two_bytes() {
    let mut bytes = [0u8; 32];
    for i in 0..32 {
        bytes[i] = (i as u8) + 1;
    }
    let mut s = String::from("root ");
    push_abbreviated_root(&mut s, &bytes);
    assert_eq!(s, "root 0x0102\u{2026}1f20");
}
