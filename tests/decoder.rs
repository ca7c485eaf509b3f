use app_delegate::apple_event::{parse_url, AppleEventRecord};
use app_delegate::codes::{DIRECT_OBJECT_KEYWORD, URL_EVENT_CODE};

fn record(event_class: u32, event_id: u32, text: Option<&[u8]>) -> AppleEventRecord {
    AppleEventRecord { event_class, event_id, direct_param: text.map(|t| t.to_vec()) }
}

#[test]
fn reserved_codes_spell_their_text() {
    assert_eq!(URL_EVENT_CODE, u32::from_be_bytes(*b"GURL"));
    assert_eq!(DIRECT_OBJECT_KEYWORD, u32::from_be_bytes(*b"----"));
}

#[test]
fn other_class_yields_nothing() {
    let rec = record(u32::from_be_bytes(*b"aevt"), URL_EVENT_CODE, Some(b"https://example.com/path"));
    assert_eq!(parse_url(&rec), None);
}

#[test]
fn other_id_yields_nothing() {
    let rec = record(URL_EVENT_CODE, u32::from_be_bytes(*b"odoc"), Some(b"https://example.com/path"));
    assert_eq!(parse_url(&rec), None);
}

#[test]
fn both_codes_wrong_yields_nothing() {
    let rec = record(0, 0, Some(b"https://example.com/path"));
    assert_eq!(parse_url(&rec), None);
}

#[test]
fn url_round_trips() {
    let rec = record(URL_EVENT_CODE, URL_EVENT_CODE, Some(b"https://example.com/path"));
    assert_eq!(parse_url(&rec), Some("https://example.com/path".to_string()));
}

#[test]
fn multibyte_text_is_kept() {
    let text = "myapp://caf\u{e9}/\u{1f600}";
    let rec = record(URL_EVENT_CODE, URL_EVENT_CODE, Some(text.as_bytes()));
    assert_eq!(parse_url(&rec), Some(text.to_string()));
}

#[test]
fn null_string_yields_nothing() {
    let rec = record(URL_EVENT_CODE, URL_EVENT_CODE, None);
    assert_eq!(parse_url(&rec), None);
}

#[test]
fn empty_string_yields_empty_url() {
    let rec = record(URL_EVENT_CODE, URL_EVENT_CODE, Some(b""));
    assert_eq!(parse_url(&rec), Some(String::new()));
}

#[test]
fn invalid_bytes_are_replaced() {
    let rec = record(URL_EVENT_CODE, URL_EVENT_CODE, Some(b"ab\xffcd"));
    assert_eq!(parse_url(&rec), Some("ab\u{fffd}cd".to_string()));
}

#[test]
fn decoding_twice_gives_the_same_url() {
    let rec = record(URL_EVENT_CODE, URL_EVENT_CODE, Some(b"https://example.com/x"));
    assert_eq!(parse_url(&rec), parse_url(&rec));
}
