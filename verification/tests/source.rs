use mado::source::{SourceEvent, StdinDecoder, WatchState};

fn appended(e: Option<SourceEvent>) -> Option<String> {
    match e {
        Some(SourceEvent::Append(s)) => Some(s),
        Some(_) => panic!("not an append"),
        None => None,
    }
}

#[test]
fn utf8_sequence_split_across_reads_is_kept_whole() {
    let bytes = "a窓b".as_bytes();
    let mut d = StdinDecoder::new();
    assert_eq!(appended(d.feed(&bytes[..2])), Some("a".to_string()));
    assert_eq!(appended(d.feed(&bytes[2..3])), None);
    assert_eq!(appended(d.feed(&bytes[3..])), Some("窓b".to_string()));
    let events = d.finish();
    assert_eq!(events.len(), 1);
    assert!(matches!(events[0], SourceEvent::Finished));
}

#[test]
fn chunks_make_the_whole_text_whatever_the_boundaries() {
    let text = "héllo, 世界! ✓";
    let bytes = text.as_bytes();
    for step in 1..5 {
        let mut d = StdinDecoder::new();
        let mut out = String::new();
        for chunk in bytes.chunks(step) {
            if let Some(s) = appended(d.feed(chunk)) {
                out.push_str(&s);
            }
        }
        for e in d.finish() {
            if let SourceEvent::Append(s) = e {
                out.push_str(&s);
            }
        }
        assert_eq!(out, text);
    }
}

#[test]
fn unfinished_sequence_at_the_end_is_decoded_lossily() {
    let mut d = StdinDecoder::new();
    assert_eq!(appended(d.feed(&[b'x', 0xE7, 0xAA])), Some("x".to_string()));
    let events = d.finish();
    assert_eq!(events.len(), 2);
    match &events[0] {
        SourceEvent::Append(s) => assert_eq!(s, "\u{FFFD}"),
        _ => panic!("expected the tail"),
    }
    assert!(matches!(events[1], SourceEvent::Finished));
}

#[test]
fn invalid_byte_stays_pending_until_the_end() {
    let mut d = StdinDecoder::new();
    assert_eq!(appended(d.feed(&[0xFF, b'a'])), None);
    assert_eq!(appended(d.feed(b"b")), None);
    let events = d.finish();
    match &events[0] {
        SourceEvent::Append(s) => assert_eq!(s, "\u{FFFD}ab"),
        _ => panic!("expected the tail"),
    }
}

#[test]
fn watched_file_refreshes_only_on_change() {
    let mut w = WatchState::new();
    match w.observe(Some("one".to_string())) {
        Some(SourceEvent::Replace(s)) => assert_eq!(s, "one"),
        _ => panic!("first content is shown"),
    }
    assert!(w.observe(Some("one".to_string())).is_none());
    match w.observe(Some("two".to_string())) {
        Some(SourceEvent::Replace(s)) => assert_eq!(s, "two"),
        _ => panic!("changed content is shown"),
    }
}

#[test]
fn missing_watched_file_counts_as_empty() {
    let mut w = WatchState::new();
    match w.observe(None) {
        Some(SourceEvent::Replace(s)) => assert_eq!(s, ""),
        _ => panic!("empty content is shown first"),
    }
    assert!(w.observe(Some(String::new())).is_none());
    assert!(w.observe(None).is_none());
}

#[test]
fn no_complete_character_is_held_back() {
    let mut d = StdinDecoder::new();
    // An incomplete sequence stays pending; the character after it cannot
    // be shown before the sequence is resolved.
    assert_eq!(appended(d.feed(&[0xE7, 0xAA])), None);
    assert_eq!(appended(d.feed(&[0x93, b'z'])), Some("窓z".to_string()));
    assert_eq!(d.finish().len(), 1);
}

#[test]
fn chunks_of_invalid_input_make_the_lossy_text() {
    let bytes: &[u8] = &[b'a', 0xE7, 0xAA, b'b', 0xFF, 0xC3, 0xA9, 0xF0, 0x9F, b'z', 0xE7];
    let whole = String::from_utf8_lossy(bytes).into_owned();
    for step in 1..6 {
        let mut d = StdinDecoder::new();
        let mut out = String::new();
        for chunk in bytes.chunks(step) {
            if let Some(s) = appended(d.feed(chunk)) {
                assert!(!s.is_empty());
                out.push_str(&s);
            }
        }
        for e in d.finish() {
            if let SourceEvent::Append(s) = e {
                assert!(!s.is_empty());
                out.push_str(&s);
            }
        }
        assert_eq!(out, whole);
    }
}
