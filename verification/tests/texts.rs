use tdn_rpc::text::{name_is, parse_length, visible_text};

#[test]
fn lengths() {
    assert_eq!(parse_length(b"0"), Some(0));
    assert_eq!(parse_length(b"42"), Some(42));
    assert_eq!(parse_length(b"+42"), Some(42));
    assert_eq!(parse_length(b"0000000000000000000000000000007"), Some(7));
    let max = format!("{}", usize::MAX);
    assert_eq!(parse_length(max.as_bytes()), Some(usize::MAX));
}

#[test]
fn texts_that_are_no_length() {
    for text in ["", "+", "-1", "++1", "1 ", " 1", "1.0", "0x10", "a"] {
        assert_eq!(parse_length(text.as_bytes()), None);
        assert!(text.parse::<usize>().is_err());
    }
    assert_eq!(parse_length(&[0xb2]), None);
    let more = format!("{}0", usize::MAX);
    assert_eq!(parse_length(more.as_bytes()), None);
    let next = format!("{}", usize::MAX as u128 + 1);
    assert_eq!(parse_length(next.as_bytes()), None);
}

#[test]
fn names_in_any_case() {
    assert!(name_is(b"Content-Length", "content-length"));
    assert!(name_is(b"CONTENT-LENGTH", "content-length"));
    assert!(name_is(b"x-peer-sig", "X-PEER-SIG"));
    assert!(!name_is(b"content-lengt", "content-length"));
    assert!(!name_is(b"content_length", "content-length"));
    assert!(!name_is(b"", "content-length"));
}

#[test]
fn visible_values() {
    assert_eq!(visible_text(b"").as_deref(), Some(""));
    assert_eq!(visible_text(b"a b\t~!").as_deref(), Some("a b\t~!"));
    assert_eq!(visible_text(b"a\x7f"), None);
    assert_eq!(visible_text(b"a\n"), None);
    assert_eq!(visible_text("\u{e9}".as_bytes()), None);
}
