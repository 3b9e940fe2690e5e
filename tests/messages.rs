use scrubber::{parse_page, MessageRef, RawMessage, SearchEntry};

fn entry(id: &str, channel: &str, content: &str) -> SearchEntry {
    SearchEntry {
        id: id.to_string(),
        channel_id: channel.to_string(),
        content: content.to_string(),
    }
}

#[test]
fn well_formed_entry_parses() {
    let m = RawMessage::from_entry(entry("100", "1", "a")).unwrap();
    assert_eq!(m.message_id, 100);
    assert_eq!(m.channel_id, 1);
    assert_eq!(m.content, "a");
    assert_eq!(m.message_ref(), MessageRef { channel_id: 1, message_id: 100 });
}

#[test]
fn signed_and_large_identifiers_parse() {
    let m = RawMessage::from_entry(entry("+42", "-7", "x")).unwrap();
    assert_eq!(m.message_id, 42);
    assert_eq!(m.channel_id, -7);
    let m = RawMessage::from_entry(entry("9223372036854775807", "1107437208498118747", "y")).unwrap();
    assert_eq!(m.message_id, i64::MAX);
    assert_eq!(m.channel_id, 1107437208498118747);
}

#[test]
fn malformed_identifiers_are_rejected() {
    assert!(RawMessage::from_entry(entry("abc", "1", "a")).is_none());
    assert!(RawMessage::from_entry(entry("1", "", "a")).is_none());
    assert!(RawMessage::from_entry(entry("-", "1", "a")).is_none());
    assert!(RawMessage::from_entry(entry(" 1", "1", "a")).is_none());
    assert!(RawMessage::from_entry(entry("1_000", "1", "a")).is_none());
    assert!(RawMessage::from_entry(entry("9223372036854775808", "1", "a")).is_none());
}

#[test]
fn page_drops_malformed_entries_and_keeps_order() {
    let page = parse_page(vec![
        entry("100", "1", "a"),
        entry("oops", "1", "bad"),
        entry("101", "1", "b"),
        entry("102", "x", "bad"),
        entry("5", "2", "c"),
    ]);
    let refs: Vec<(i64, i64, String)> = page
        .into_iter()
        .map(|m| (m.channel_id, m.message_id, m.content))
        .collect();
    assert_eq!(
        refs,
        vec![
            (1, 100, "a".to_string()),
            (1, 101, "b".to_string()),
            (2, 5, "c".to_string())
        ]
    );
}

#[test]
fn empty_page_parses_to_nothing() {
    assert!(parse_page(vec![]).is_empty());
    assert!(parse_page(vec![entry("z", "1", "a")]).is_empty());
}
