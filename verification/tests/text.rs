use jot::text::{blank, to_decimal};

#[test]
fn the_empty_text_is_blank() {
    assert!(blank(""));
}

#[test]
fn whitespace_is_blank() {
    assert!(blank(" "));
    assert!(blank(" \t\r\n"));
    assert!(blank("\u{a0}\u{2003}\u{3000}"));
}

#[test]
fn text_with_anything_else_is_not_blank() {
    assert!(!blank("hello"));
    assert!(!blank("  x  "));
    assert!(!blank("\n.\n"));
    assert!(!blank("\u{200b}"));
}

#[test]
fn ascii_whitespace_is_the_space_and_tab_to_carriage_return() {
    for code in 0u8..128 {
        let c = char::from(code);
        let expected = c == ' ' || ('\t'..='\r').contains(&c);
        assert_eq!(blank(&c.to_string()), expected);
    }
}

#[test]
fn blank_is_what_trimming_leaves_empty() {
    for s in ["", " ", "a", " a ", "\t\n", "\u{feff}", "\u{85}", "\u{1680} \u{2028}"] {
        assert_eq!(blank(s), s.trim().is_empty());
    }
}

#[test]
fn decimal_of_small_numbers() {
    assert_eq!(to_decimal(0), "0");
    assert_eq!(to_decimal(7), "7");
    assert_eq!(to_decimal(10), "10");
    assert_eq!(to_decimal(109), "109");
}

#[test]
fn decimal_of_a_timestamp() {
    assert_eq!(to_decimal(1_700_000_000_123), "1700000000123");
}

#[test]
fn decimal_of_the_largest_number() {
    assert_eq!(to_decimal(u128::MAX), "340282366920938463463374607431768211455");
    assert_eq!(to_decimal(u128::MAX), u128::MAX.to_string());
}
