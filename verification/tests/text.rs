use boilerkey::otp::{code_for, output_line};
use boilerkey::text::{decimal_text, trim, white_space};

#[test]
fn trim_removes_white_space_around() {
    assert_eq!(trim("4321\n"), "4321");
    assert_eq!(trim("  4321 \r\n"), "4321");
    assert_eq!(trim("\t12 34\t"), "12 34");
    assert_eq!(trim("4321"), "4321");
}

#[test]
fn trim_of_white_space_only_is_empty() {
    assert_eq!(trim(""), "");
    assert_eq!(trim(" \t\r\n"), "");
    assert_eq!(trim("\u{3000}\u{a0}"), "");
}

#[test]
fn trim_agrees_with_the_standard_library() {
    let samples = [
        "",
        " ",
        "a",
        " a",
        "a ",
        " a b ",
        "\u{2003}x\u{2003}",
        "\u{85}\u{1680}pin\u{2028}\u{2029}\u{202f}\u{205f}",
        "\u{200b}zero width\u{200b}",
        "\u{feff}bom",
        "\u{1c}fs\u{1f}",
        "  \u{e9}\u{1f511} \n",
    ];
    for sample in samples {
        assert_eq!(trim(sample), sample.trim());
    }
}

#[test]
fn white_space_is_the_unicode_property() {
    for n in 0..=0x10ffffu32 {
        if let Some(c) = char::from_u32(n) {
            assert_eq!(white_space(c), c.is_whitespace(), "U+{:04X}", n);
        }
    }
}

#[test]
fn decimal_text_writes_every_status() {
    assert_eq!(decimal_text(0), "0");
    assert_eq!(decimal_text(9), "9");
    assert_eq!(decimal_text(10), "10");
    assert_eq!(decimal_text(500), "500");
    assert_eq!(decimal_text(1007), "1007");
    for n in 0..=65535u16 {
        assert_eq!(decimal_text(n), n.to_string());
    }
}

#[test]
fn output_line_is_pin_comma_code() {
    assert_eq!(output_line("4321", "755224"), "4321,755224");
    assert_eq!(output_line("", "755224"), ",755224");
    assert_eq!(output_line("a,b", ""), "a,b,");
}

#[test]
fn codes_match_the_published_vectors() {
    let expected = [
        "755224", "287082", "359152", "969429", "338314", "254676", "287922", "162583", "399871",
        "520489",
    ];
    for (counter, code) in expected.iter().enumerate() {
        assert_eq!(code_for("12345678901234567890", counter as u64), *code);
    }
}

#[test]
fn codes_depend_on_secret_and_counter() {
    assert_ne!(code_for("ASCIIKEY", 0), "ASCIIKEY");
    assert_ne!(code_for("12345678901234567890", 0), code_for("12345678901234567890", 1));
    assert_ne!(code_for("12345678901234567890", 0), code_for("12345678901234567891", 0));
    for (secret, counter) in [("", 0u64), ("ASCIIKEY", 18446744073709551615), ("k", 7)] {
        let code = code_for(secret, counter);
        assert_eq!(code.len(), 6);
        assert!(code.chars().all(|c| c.is_ascii_digit()));
    }
}
