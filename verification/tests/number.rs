use desktop2mqtt::backlight::raspberry_pi::RaspberryPiBacklight;
use desktop2mqtt::number::{parse_i32, render_i32};

#[test]
fn parses_what_a_device_file_holds() {
    assert_eq!(parse_i32("255\n"), Some(255));
    assert_eq!(parse_i32("0"), Some(0));
    assert_eq!(parse_i32("  1 "), Some(1));
    assert_eq!(parse_i32("-1"), Some(-1));
    assert_eq!(parse_i32("+7"), Some(7));
    assert_eq!(parse_i32("007"), Some(7));
    assert_eq!(parse_i32("-0"), Some(0));
    assert_eq!(RaspberryPiBacklight::parse_value("128\n"), Some(128));
}

#[test]
fn rejects_what_is_no_number() {
    for text in ["", " ", "\n", "-", "+", "--1", "+-1", "1 2", "12a", "a12", "1.5", "0x10", "١٢"] {
        assert_eq!(parse_i32(text), None);
    }
}

#[test]
fn parses_up_to_the_limits() {
    assert_eq!(parse_i32("2147483647"), Some(i32::MAX));
    assert_eq!(parse_i32("-2147483648"), Some(i32::MIN));
    assert_eq!(parse_i32("2147483648"), None);
    assert_eq!(parse_i32("-2147483649"), None);
    assert_eq!(parse_i32("00000000000000000000002147483647"), Some(i32::MAX));
    assert_eq!(parse_i32("99999999999999999999999999999999"), None);
    assert_eq!(parse_i32("-99999999999999999999999999999999"), None);
}

#[test]
fn parsing_agrees_with_the_standard_library() {
    let texts = [
        "42", " 42", "42 ", "\t42\r\n", "\u{a0}42\u{3000}", "\u{2003}-17\u{85}", "+0", "-", "4 2",
        "2147483647", "2147483648", "-2147483648", "-2147483649", "", "x", "٣", "\u{200b}1",
        "\u{1680}9\u{2028}", "\u{b}5\u{c}", "1\u{205f}", "\u{202f}1\u{2029}", "\u{feff}1",
    ];
    for text in texts {
        assert_eq!(parse_i32(text), text.trim().parse::<i32>().ok());
    }
}

#[test]
fn renders_numbers_in_base_ten() {
    assert_eq!(render_i32(0), "0");
    assert_eq!(render_i32(7), "7");
    assert_eq!(render_i32(10), "10");
    assert_eq!(render_i32(255), "255");
    assert_eq!(render_i32(-1), "-1");
    assert_eq!(render_i32(i32::MAX), "2147483647");
    assert_eq!(render_i32(i32::MIN), "-2147483648");
    assert_eq!(RaspberryPiBacklight::render_value(128), "128");
}

#[test]
fn rendering_agrees_with_the_standard_library_and_parses_back() {
    let mut value: i64 = i32::MIN as i64;
    while value <= i32::MAX as i64 {
        let v = value as i32;
        assert_eq!(render_i32(v), v.to_string());
        assert_eq!(parse_i32(&render_i32(v)), Some(v));
        value += 7_654_321;
    }
    for v in -1000..1000 {
        assert_eq!(render_i32(v), v.to_string());
        assert_eq!(parse_i32(&render_i32(v)), Some(v));
    }
}

#[test]
fn white_space_is_what_the_standard_library_trims() {
    for code in 0..=0x10ffffu32 {
        if let Some(c) = char::from_u32(code) {
            let text = format!("{}1{}", c, c);
            assert_eq!(parse_i32(&text), text.trim().parse::<i32>().ok());
        }
    }
}
