use clipboard_sync::applier::{ApplyError, ClipboardWrite};
use clipboard_sync::content::{ClipboardContent, ContentType};
use clipboard_sync::sync::ClipboardSync;

fn emitted_text(c: Option<ClipboardContent>) -> Option<String> {
    c.map(|c| {
        assert_eq!(c.content_type, ContentType::Text);
        assert!(!c.from_network);
        c.text().unwrap()
    })
}

#[test]
fn hello_empty_then_applied_world() {
    let mut s = ClipboardSync::new();
    assert_eq!(emitted_text(s.tick(Some("hello".to_string()), None)), Some("hello".to_string()));
    assert!(s.tick(Some("hello".to_string()), None).is_none());
    assert_eq!(emitted_text(s.tick(Some(String::new()), None)), Some(String::new()));
    let incoming = ClipboardContent::new_text("world".to_string());
    let stamp = incoming.timestamp;
    let write = s.handle_incoming_content(incoming).unwrap();
    match write {
        ClipboardWrite::Text(t) => assert_eq!(t, "world"),
        other => panic!("unexpected write {:?}", other),
    }
    let last = s.last_content().unwrap();
    assert_eq!(last.content_type, ContentType::Text);
    assert_eq!(last.text(), Some("world".to_string()));
    assert_eq!(last.data, "world".as_bytes().to_vec());
    assert_eq!(last.timestamp, stamp);
    assert!(!last.from_network);
    assert!(s.tick(Some("world".to_string()), None).is_none());
}

#[test]
fn same_text_twice_emits_once() {
    let mut s = ClipboardSync::new();
    assert!(s.tick(Some("a".to_string()), None).is_some());
    assert!(s.tick(Some("a".to_string()), None).is_none());
    assert!(s.tick(Some("a".to_string()), None).is_none());
}

#[test]
fn absent_text_emits_nothing() {
    let mut s = ClipboardSync::new();
    assert!(s.tick(None, None).is_none());
    assert!(s.last_content().is_none());
}

#[test]
fn emitted_text_becomes_last_content() {
    let mut s = ClipboardSync::new();
    s.tick(Some("copied".to_string()), None).unwrap();
    assert_eq!(s.last_content().unwrap().text(), Some("copied".to_string()));
}

#[test]
fn text_returning_to_last_synced_value_is_suppressed() {
    let mut s = ClipboardSync::new();
    assert!(s.tick(Some("a".to_string()), None).is_some());
    assert!(s.tick(None, None).is_none());
    assert!(s.tick(Some("a".to_string()), None).is_none());
    assert!(s.tick(Some("b".to_string()), None).is_some());
}

#[test]
fn text_takes_precedence_over_image() {
    let mut s = ClipboardSync::new();
    let e = s.tick(Some("t".to_string()), Some((vec![1, 2, 3, 4], 1, 1))).unwrap();
    assert_eq!(e.content_type, ContentType::Text);
    // The next tick, text unchanged, considers the image.
    let e = s.tick(Some("t".to_string()), Some((vec![1, 2, 3, 4], 1, 1))).unwrap();
    assert_eq!(e.content_type, ContentType::Image);
    assert_eq!(e.image().unwrap(), (&[1u8, 2, 3, 4][..], 1, 1));
}

#[test]
fn image_changes_are_detected_by_content() {
    let mut s = ClipboardSync::new();
    assert!(s.tick(None, Some((vec![1, 1, 1, 1], 1, 1))).is_some());
    assert!(s.tick(None, Some((vec![1, 1, 1, 1], 1, 1))).is_none());
    let e = s.tick(None, Some((vec![2, 2, 2, 2], 1, 1))).unwrap();
    assert_eq!(e.data, vec![2, 2, 2, 2]);
    assert_eq!((e.width, e.height), (Some(1), Some(1)));
}

#[test]
fn image_with_zero_area_is_not_emitted() {
    let mut s = ClipboardSync::new();
    assert!(s.tick(None, Some((vec![1, 2], 0, 3))).is_none());
    assert!(s.last_content().is_none());
}

#[test]
fn observe_uses_supplied_fingerprint() {
    let mut s = ClipboardSync::new();
    assert!(s.observe(None, Some((vec![5], 1, 1)), 42).is_some());
    // Same fingerprint: no change, even though the bytes differ.
    assert!(s.observe(None, Some((vec![6], 1, 1)), 42).is_none());
    assert!(s.observe(None, Some((vec![6], 1, 1)), 43).is_some());
}

#[test]
fn applied_image_is_not_echoed() {
    let mut s = ClipboardSync::new();
    let incoming = ClipboardContent::new_image(vec![3, 3, 3, 3, 4, 4, 4, 4], 2, 1).unwrap();
    match s.handle_incoming_content(incoming).unwrap() {
        ClipboardWrite::Image(b, w, h) => {
            assert_eq!(b, vec![3, 3, 3, 3, 4, 4, 4, 4]);
            assert_eq!((w, h), (2, 1));
        }
        other => panic!("unexpected write {:?}", other),
    }
    assert!(s.tick(None, Some((vec![3, 3, 3, 3, 4, 4, 4, 4], 2, 1))).is_none());
}

#[test]
fn applied_text_is_not_echoed_after_other_text() {
    let mut s = ClipboardSync::new();
    assert!(s.tick(Some("mine".to_string()), None).is_some());
    s.handle_incoming_content(ClipboardContent::new_text("theirs".to_string())).unwrap();
    assert!(s.tick(Some("theirs".to_string()), None).is_none());
}

#[test]
fn incoming_invalid_text_is_refused() {
    let mut s = ClipboardSync::new();
    let bad = ClipboardContent {
        content_type: ContentType::Text,
        data: vec![0xc3],
        timestamp: 0,
        width: None,
        height: None,
        from_network: false,
    };
    assert_eq!(s.handle_incoming_content(bad).unwrap_err(), ApplyError::InvalidEnvelope);
    assert!(s.last_content().is_none());
}

#[test]
fn incoming_image_without_dimensions_is_refused() {
    let mut s = ClipboardSync::new();
    let bad = ClipboardContent {
        content_type: ContentType::Image,
        data: vec![1, 2, 3, 4],
        timestamp: 0,
        width: None,
        height: Some(1),
        from_network: false,
    };
    assert_eq!(s.handle_incoming_content(bad).unwrap_err(), ApplyError::InvalidEnvelope);
    let zero = ClipboardContent {
        content_type: ContentType::Image,
        data: vec![1, 2, 3, 4],
        timestamp: 0,
        width: Some(0),
        height: Some(1),
        from_network: false,
    };
    assert_eq!(s.handle_incoming_content(zero).unwrap_err(), ApplyError::InvalidEnvelope);
    assert!(s.last_content().is_none());
}

#[test]
fn default_engine_is_empty() {
    let mut s = ClipboardSync::default();
    assert!(s.last_content().is_none());
    assert!(s.tick(Some("x".to_string()), None).is_some());
}

#[test]
fn applied_envelope_is_recorded_unchanged() {
    let mut s = ClipboardSync::new();
    let mut incoming = ClipboardContent::new_image_at(vec![7, 7, 7, 7], 1, 1, 1234).unwrap();
    incoming.from_network = true;
    s.handle_incoming_content(incoming).unwrap();
    let last = s.last_content().unwrap();
    assert_eq!(last.content_type, ContentType::Image);
    assert_eq!(last.data, vec![7, 7, 7, 7]);
    assert_eq!(last.timestamp, 1234);
    assert_eq!((last.width, last.height), (Some(1), Some(1)));
    assert!(last.from_network);
}
