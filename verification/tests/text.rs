use webrtc_sendrecv::text::{decimal_text, join3, same_text, signed_decimal_text, starts_with};

#[test]
fn prefixes_are_found() {
    assert!(starts_with("ERROR: no such peer", "ERROR"));
    assert!(starts_with("ERROR", "ERROR"));
    assert!(starts_with("anything", ""));
    assert!(!starts_with("ERRO", "ERROR"));
    assert!(!starts_with("error", "ERROR"));
    assert!(!starts_with(" ERROR", "ERROR"));
    assert!(starts_with("\u{e9}t\u{e9}", "\u{e9}t"));
    assert!(!starts_with("\u{e9}t\u{e9}", "et"));
}

#[test]
fn same_texts_are_told_apart_from_others() {
    assert!(same_text("offer", "offer"));
    assert!(same_text("", ""));
    assert!(!same_text("offer", "offers"));
    assert!(!same_text("offers", "offer"));
    assert!(!same_text("offer", "Offer"));
}

#[test]
fn texts_are_joined_in_order() {
    assert_eq!(join3("a", "", "bc"), "abc");
    assert_eq!(join3("1", "2", "3"), "123");
}

#[test]
fn numbers_are_written_in_decimal() {
    assert_eq!(decimal_text(0), "0");
    assert_eq!(decimal_text(7), "7");
    assert_eq!(decimal_text(10), "10");
    assert_eq!(decimal_text(9999), "9999");
    assert_eq!(decimal_text(u32::MAX), "4294967295");
    assert_eq!(signed_decimal_text(-1), "-1");
    assert_eq!(signed_decimal_text(i32::MIN), "-2147483648");
    assert_eq!(signed_decimal_text(42), "42");
}

#[test]
fn decimal_notation_reads_back() {
    let mut n: u32 = 0;
    while n < 20_000 {
        assert_eq!(decimal_text(n).parse::<u32>(), Ok(n));
        n += 37;
    }
}
