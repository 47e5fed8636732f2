use terminal_color_builder::color::{hex_to_rgb, Color};
use terminal_color_builder::decimal::push_decimal;
use terminal_color_builder::hex::{channels, hex_digit, strip_hash, HexError};

#[test]
fn shorthand_and_full_white_agree() {
    assert_eq!(hex_to_rgb("#fff"), Ok((255, 255, 255)));
    assert_eq!(hex_to_rgb("ffffff"), Ok((255, 255, 255)));
    assert_eq!(hex_to_rgb("#fff"), hex_to_rgb("ffffff"));
}

#[test]
fn shorthand_doubles_each_digit() {
    assert_eq!(hex_to_rgb("abc"), Ok((170, 187, 204)));
    assert_eq!(hex_to_rgb("abc"), hex_to_rgb("aabbcc"));
    assert_eq!(hex_to_rgb("#19f"), hex_to_rgb("#1199ff"));
}

#[test]
fn five_digits_are_a_length_error() {
    assert_eq!(hex_to_rgb("12345"), Err(HexError::InvalidHexLength));
    assert_eq!(
        Color::string_to_hexdec("12345"),
        Err(HexError::InvalidHexLength)
    );
}

#[test]
fn a_letter_past_f_is_a_digit_error() {
    assert_eq!(hex_to_rgb("12g"), Err(HexError::InvalidHexDigit));
    assert_eq!(Color::string_to_hexdec("12g"), Err(HexError::InvalidHexDigit));
    assert_eq!(hex_to_rgb("#12345z"), Err(HexError::InvalidHexDigit));
    assert_eq!(hex_to_rgb("gggggg"), Err(HexError::InvalidHexDigit));
}

#[test]
fn other_lengths_are_length_errors() {
    assert_eq!(hex_to_rgb(""), Err(HexError::InvalidHexLength));
    assert_eq!(hex_to_rgb("#"), Err(HexError::InvalidHexLength));
    assert_eq!(hex_to_rgb("f"), Err(HexError::InvalidHexLength));
    assert_eq!(hex_to_rgb("ff"), Err(HexError::InvalidHexLength));
    assert_eq!(hex_to_rgb("ffff"), Err(HexError::InvalidHexLength));
    assert_eq!(hex_to_rgb("fffffff"), Err(HexError::InvalidHexLength));
    assert_eq!(hex_to_rgb("#ffffffff"), Err(HexError::InvalidHexLength));
}

#[test]
fn length_comes_before_digits() {
    assert_eq!(hex_to_rgb("12g45"), Err(HexError::InvalidHexLength));
    assert_eq!(hex_to_rgb("zz"), Err(HexError::InvalidHexLength));
    assert_eq!(hex_to_rgb("zzz"), Err(HexError::InvalidHexDigit));
}

#[test]
fn most_significant_digit_comes_first() {
    assert_eq!(Color::string_to_hexdec("123456"), Ok(0x123456));
    assert_eq!(hex_to_rgb("#123456"), Ok((0x12, 0x34, 0x56)));
    assert_eq!(Color::string_to_hexdec("100"), Ok(0x110000));
    assert_eq!(hex_to_rgb("100"), Ok((17, 0, 0)));
    assert_eq!(hex_to_rgb("001"), Ok((0, 0, 17)));
    assert_eq!(hex_to_rgb("#ab1346"), Ok((171, 19, 70)));
}

#[test]
fn largest_and_smallest_values() {
    assert_eq!(Color::string_to_hexdec("ffffff"), Ok(0xff_ffff));
    assert_eq!(Color::string_to_hexdec("fff"), Ok(0xff_ffff));
    assert_eq!(Color::string_to_hexdec("000000"), Ok(0));
    assert_eq!(Color::string_to_hexdec("#000"), Ok(0));
}

#[test]
fn digits_are_read_in_either_case() {
    assert_eq!(hex_to_rgb("ABCDEF"), Ok((171, 205, 239)));
    assert_eq!(hex_to_rgb("abcdef"), Ok((171, 205, 239)));
    assert_eq!(hex_to_rgb("AbCdEf"), Ok((171, 205, 239)));
    assert_eq!(hex_to_rgb("#FfF"), Ok((255, 255, 255)));
}

#[test]
fn hash_marks_are_skipped_wherever_they_stand() {
    assert_eq!(hex_to_rgb("ff#f"), Ok((255, 255, 255)));
    assert_eq!(hex_to_rgb("##12#34#56#"), Ok((0x12, 0x34, 0x56)));
    assert_eq!(hex_to_rgb("#1#2"), Err(HexError::InvalidHexLength));
}

#[test]
fn characters_are_counted_not_bytes() {
    assert_eq!(hex_to_rgb("\u{e9}12"), Err(HexError::InvalidHexDigit));
    assert_eq!(hex_to_rgb("\u{e9}\u{e9}\u{e9}"), Err(HexError::InvalidHexDigit));
    assert_eq!(hex_to_rgb("\u{e9}1"), Err(HexError::InvalidHexLength));
    assert_eq!(hex_to_rgb(" fff"), Err(HexError::InvalidHexLength));
    assert_eq!(hex_to_rgb("ff "), Err(HexError::InvalidHexDigit));
}

#[test]
fn strip_hash_keeps_the_rest_in_order() {
    assert_eq!(strip_hash("#a#b#c"), vec!['a', 'b', 'c']);
    assert_eq!(strip_hash("xyz"), vec!['x', 'y', 'z']);
    assert_eq!(strip_hash("###"), Vec::<char>::new());
    assert_eq!(strip_hash(""), Vec::<char>::new());
}

#[test]
fn hex_digit_values() {
    let digits = "0123456789abcdef";
    for (value, c) in digits.chars().enumerate() {
        assert_eq!(hex_digit(c), Some(value as u8));
        assert_eq!(hex_digit(c.to_ascii_uppercase()), Some(value as u8));
    }
    assert_eq!(hex_digit('g'), None);
    assert_eq!(hex_digit('G'), None);
    assert_eq!(hex_digit('#'), None);
    assert_eq!(hex_digit('/'), None);
    assert_eq!(hex_digit(':'), None);
    assert_eq!(hex_digit('@'), None);
    assert_eq!(hex_digit('`'), None);
    assert_eq!(hex_digit(' '), None);
    assert_eq!(hex_digit('\u{ff10}'), None);
}

#[test]
fn channels_are_the_low_three_bytes() {
    assert_eq!(channels(0x0a0b0c), (10, 11, 12));
    assert_eq!(channels(0), (0, 0, 0));
    assert_eq!(channels(0xff_ffff), (255, 255, 255));
    assert_eq!(channels(0x0102_0304), (2, 3, 4));
    assert_eq!(channels(u32::MAX), (255, 255, 255));
}

#[test]
fn decimal_has_no_padding() {
    let cases: [(u8, &str); 10] = [
        (0, "0"),
        (7, "7"),
        (9, "9"),
        (10, "10"),
        (42, "42"),
        (99, "99"),
        (100, "100"),
        (101, "101"),
        (200, "200"),
        (255, "255"),
    ];
    for (n, expected) in cases {
        let mut out = String::new();
        push_decimal(&mut out, n);
        assert_eq!(out, expected);
    }
}

#[test]
fn decimal_is_appended_to_what_is_there() {
    let mut out = String::from("8;2;");
    push_decimal(&mut out, 17);
    assert_eq!(out, "8;2;17");
    push_decimal(&mut out, 0);
    assert_eq!(out, "8;2;170");
}

#[test]
fn decimal_agrees_with_std_for_every_byte() {
    for n in 0..=255u8 {
        let mut out = String::new();
        push_decimal(&mut out, n);
        assert_eq!(out, format!("{}", n));
    }
}
