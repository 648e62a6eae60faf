use sfo_kiosk::text::{is_white_space, push_decimal, push_padded, trim};

fn decimal(n: u64) -> String {
    let mut out = String::new();
    push_decimal(&mut out, n);
    out
}

fn padded(v: i32, width: usize) -> String {
    let mut out = String::from("|");
    push_padded(&mut out, v, width);
    out
}

#[test]
fn decimal_numbers() {
    for n in [0, 1, 9, 10, 11, 99, 100, 1234567890, u64::MAX] {
        assert_eq!(decimal(n), n.to_string());
    }
}

#[test]
fn padding_agrees_with_format() {
    for v in [0, 5, 9, 10, 42, 99, 100, 2026, 9999, 10000, i32::MAX, -1, -9, -10, -123, -1234, i32::MIN] {
        assert_eq!(padded(v, 2), format!("|{v:02}"));
        assert_eq!(padded(v, 4), format!("|{v:04}"));
        assert_eq!(padded(v, 0), format!("|{v}"));
    }
    assert_eq!(padded(7, 2), "|07");
    assert_eq!(padded(33, 4), "|0033");
    assert_eq!(padded(-5, 4), "|-005");
}

#[test]
fn white_space_is_the_unicode_property() {
    for u in 0..=0x10ffffu32 {
        if let Some(c) = char::from_u32(u) {
            assert_eq!(is_white_space(c), c.is_whitespace(), "U+{:04X}", u);
        }
    }
}

#[test]
fn trimming_agrees_with_std() {
    for s in [
        "", " ", "ok", "ok\n", "\r\n ok \t", " a b ", "\u{3000}x\u{2028}", "\u{200b}x", "\u{fffd} ", "é",
    ] {
        assert_eq!(trim(s), s.trim());
    }
    assert_eq!(trim(" \tone two\n"), "one two");
}
