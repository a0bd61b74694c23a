use squash::text::{
    squash_text_equal, squash_text_to_bool, squash_text_to_int, squash_text_to_size, SquashNumber,
};

#[test]
fn equal_texts_are_equal() {
    assert!(squash_text_equal("level", "level"));
    assert!(squash_text_equal("", ""));
    assert!(!squash_text_equal("level", "Level"));
    assert!(!squash_text_equal("level", "levels"));
    assert!(!squash_text_equal("", "x"));
    assert!(squash_text_equal("gr\u{f6}\u{df}e", "gr\u{f6}\u{df}e"));
    assert!(!squash_text_equal("gr\u{f6}\u{df}e", "grosse"));
}

#[test]
fn booleans_are_read_in_any_case() {
    for text in ["true", "TRUE", "True", "yes", "Yes", "on", "ON", "t", "T", "y", "Y", "1"] {
        assert_eq!(squash_text_to_bool(text.as_bytes()), Some(true), "{}", text);
    }
    for text in ["false", "FALSE", "no", "No", "off", "OFF", "f", "F", "n", "N", "0"] {
        assert_eq!(squash_text_to_bool(text.as_bytes()), Some(false), "{}", text);
    }
    for text in ["", "2", "tru", "truee", "yess", "of", "nope", "o", " on", "t ", "@", "[", "`"] {
        assert_eq!(squash_text_to_bool(text.as_bytes()), None, "{}", text);
    }
}

#[test]
fn integers_are_read_in_decimal() {
    assert!(matches!(squash_text_to_int(b"0"), SquashNumber::Value(0)));
    assert!(matches!(squash_text_to_int(b"42"), SquashNumber::Value(42)));
    assert!(matches!(squash_text_to_int(b"+42"), SquashNumber::Value(42)));
    assert!(matches!(squash_text_to_int(b"-42"), SquashNumber::Value(-42)));
    assert!(matches!(squash_text_to_int(b"-0"), SquashNumber::Value(0)));
    assert!(matches!(squash_text_to_int(b"007"), SquashNumber::Value(7)));
    assert!(matches!(squash_text_to_int(b"2147483647"), SquashNumber::Value(2147483647)));
    assert!(matches!(squash_text_to_int(b"-2147483648"), SquashNumber::Value(-2147483648)));
}

#[test]
fn integers_out_of_range_are_told_from_malformed_ones() {
    assert!(matches!(squash_text_to_int(b"2147483648"), SquashNumber::OutOfRange));
    assert!(matches!(squash_text_to_int(b"-2147483649"), SquashNumber::OutOfRange));
    assert!(matches!(
        squash_text_to_int(b"99999999999999999999999999999999999999999999999999"),
        SquashNumber::OutOfRange
    ));
    assert!(matches!(squash_text_to_int(b""), SquashNumber::Malformed));
    assert!(matches!(squash_text_to_int(b"-"), SquashNumber::Malformed));
    assert!(matches!(squash_text_to_int(b"+"), SquashNumber::Malformed));
    assert!(matches!(squash_text_to_int(b"12a"), SquashNumber::Malformed));
    assert!(matches!(squash_text_to_int(b"a12"), SquashNumber::Malformed));
    assert!(matches!(squash_text_to_int(b"1 2"), SquashNumber::Malformed));
    assert!(matches!(squash_text_to_int(b"--1"), SquashNumber::Malformed));
    assert!(matches!(squash_text_to_int(b"0x10"), SquashNumber::Malformed));
    assert!(matches!(
        squash_text_to_int(b"99999999999999999999999999999999999999999999999999x"),
        SquashNumber::Malformed
    ));
}

#[test]
fn sizes_are_read_in_decimal() {
    assert!(matches!(squash_text_to_size(b"0"), SquashNumber::Value(0)));
    assert!(matches!(squash_text_to_size(b"4096"), SquashNumber::Value(4096)));
    assert!(matches!(squash_text_to_size(b"+4096"), SquashNumber::Value(4096)));
    assert!(matches!(squash_text_to_size(b"-0"), SquashNumber::Value(0)));
    let greatest = format!("{}", usize::MAX);
    match squash_text_to_size(greatest.as_bytes()) {
        SquashNumber::Value(size) => assert_eq!(size, usize::MAX),
        _ => panic!("the greatest size was not read"),
    }
    assert!(matches!(squash_text_to_size(b"-1"), SquashNumber::OutOfRange));
    assert!(matches!(
        squash_text_to_size(b"340282366920938463463374607431768211456"),
        SquashNumber::OutOfRange
    ));
    assert!(matches!(squash_text_to_size(b"18446744073709551616"), SquashNumber::OutOfRange));
    assert!(matches!(squash_text_to_size(b"4k"), SquashNumber::Malformed));
    assert!(matches!(squash_text_to_size(b""), SquashNumber::Malformed));
}
