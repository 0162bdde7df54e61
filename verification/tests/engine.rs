use clipboard2json::errors::WatchError;
use clipboard2json::records::ClipboardData;
use clipboard2json::watcher::{Action, AtomVocabulary, Event, OwnershipWatcher};
use std::time::{SystemTime, UNIX_EPOCH};

const SELECTION: u64 = 1;
const TARGET_LIST: u64 = 2;
const INCREMENTAL: u64 = 3;
const PROPERTY: u64 = 4;

fn vocab() -> AtomVocabulary {
    AtomVocabulary {
        selection: SELECTION,
        target_list: TARGET_LIST,
        incremental: INCREMENTAL,
        property: PROPERTY,
    }
}

fn atom_bytes(atoms: &[u64]) -> Vec<u8> {
    let mut out = Vec::new();
    for a in atoms {
        out.extend_from_slice(&a.to_le_bytes());
    }
    out
}

fn now_secs() -> u64 {
    SystemTime::now().duration_since(UNIX_EPOCH).unwrap().as_secs()
}

/// Drives one whole notification cycle whose owner offers the given targets
/// and answers the transfer with `payload`; returns the engine awaiting the
/// sink's answer and the emitted record.
fn drive_to_emit(
    w: OwnershipWatcher,
    offered: &[(u64, &str)],
    payload: &[u8],
    title: Option<&str>,
) -> (OwnershipWatcher, ClipboardData) {
    let (w, a) = w.handle_event(Event::OwnershipChanged);
    assert!(matches!(
        a,
        Action::RequestConversion { selection: SELECTION, target: TARGET_LIST, property: PROPERTY }
    ));
    let (w, a) = w.handle_event(Event::ConversionReady { property: PROPERTY });
    assert!(matches!(a, Action::ProbeProperty { property: PROPERTY }));
    let bytes = atom_bytes(&offered.iter().map(|p| p.0).collect::<Vec<u64>>());
    let (w, a) = w.handle_event(Event::PropertyProbed {
        value_type: 77,
        byte_count: bytes.len() as u64,
    });
    assert!(matches!(a, Action::ReadProperty { property: PROPERTY, .. }));
    let (mut w, mut a) = w.handle_event(Event::PropertyRead { bytes });
    let mut chosen = None;
    for (atom, name) in offered {
        assert_eq!(
            match a {
                Action::ResolveAtom { atom } => atom,
                ref other => panic!("expected an atom resolution, got {}", action_name(other)),
            },
            *atom
        );
        let step = w.handle_event(Event::AtomResolved { name: Some(name.to_string()) });
        w = step.0;
        a = step.1;
    }
    match a {
        Action::RequestConversion { selection, target, property } => {
            assert_eq!(selection, SELECTION);
            assert_eq!(property, PROPERTY);
            chosen = Some(target);
        }
        other => panic!("expected the transfer request, got {}", action_name(&other)),
    }
    assert!(chosen.is_some());
    let (w, a) = w.handle_event(Event::ConversionReady { property: PROPERTY });
    assert!(matches!(a, Action::ProbeProperty { property: PROPERTY }));
    let (w, a) = w.handle_event(Event::PropertyProbed {
        value_type: 55,
        byte_count: payload.len() as u64,
    });
    assert!(matches!(a, Action::ReadProperty { property: PROPERTY, .. }));
    let (w, a) = w.handle_event(Event::PropertyRead { bytes: payload.to_vec() });
    assert!(matches!(a, Action::FetchOwnerTitle { selection: SELECTION }));
    let (w, a) = w.handle_event(Event::OwnerTitle { title: title.map(|t| t.to_string()) });
    match a {
        Action::Emit { record } => (w, record),
        other => panic!("expected the emission, got {}", action_name(&other)),
    }
}

fn action_name(a: &Action) -> &'static str {
    match a {
        Action::Wait => "Wait",
        Action::RequestConversion { .. } => "RequestConversion",
        Action::ProbeProperty { .. } => "ProbeProperty",
        Action::ReadProperty { .. } => "ReadProperty",
        Action::ResolveAtom { .. } => "ResolveAtom",
        Action::FetchOwnerTitle { .. } => "FetchOwnerTitle",
        Action::Emit { .. } => "Emit",
        Action::Report { .. } => "Report",
    }
}

#[test]
fn utf8_offer_yields_the_payload_as_a_text_record() {
    let before = now_secs();
    let (_, record) = drive_to_emit(
        OwnershipWatcher::new(vocab()),
        &[(100, "UTF8_STRING"), (101, "TIMESTAMP")],
        b"hello world",
        Some("editor"),
    );
    let after = now_secs();
    match record {
        ClipboardData::UnicodeText { content, owner, created_at } => {
            assert_eq!(content, "hello world".to_string());
            assert_eq!(owner, Some("editor".to_string()));
            assert!(before <= created_at && created_at <= after);
        }
        _ => panic!("a UTF8_STRING transfer must yield a UnicodeText record"),
    }
}

#[test]
fn html_offer_takes_priority_over_utf8() {
    let (_, record) = drive_to_emit(
        OwnershipWatcher::new(vocab()),
        &[(200, "UTF8_STRING"), (201, "text/html")],
        b"<p>hi</p>",
        None,
    );
    match record {
        ClipboardData::Html { content, owner, url, .. } => {
            assert_eq!(content, "<p>hi</p>".to_string());
            assert_eq!(owner, None);
            assert_eq!(url, None);
        }
        _ => panic!("an owner offering text/html must yield an Html record"),
    }
}

#[test]
fn text_only_offer_never_yields_html() {
    let (_, record) = drive_to_emit(
        OwnershipWatcher::new(vocab()),
        &[(300, "TEXT")],
        b"plain",
        Some("term"),
    );
    assert!(matches!(record, ClipboardData::UnicodeText { .. }));
}

#[test]
fn incremental_probe_aborts_without_a_read_or_record() {
    let w = OwnershipWatcher::new(vocab());
    let (w, _) = w.handle_event(Event::OwnershipChanged);
    let (w, _) = w.handle_event(Event::ConversionReady { property: PROPERTY });
    let bytes = atom_bytes(&[100]);
    let (w, _) = w.handle_event(Event::PropertyProbed { value_type: 77, byte_count: 8 });
    let (w, _) = w.handle_event(Event::PropertyRead { bytes });
    let (w, a) = w.handle_event(Event::AtomResolved { name: Some("UTF8_STRING".to_string()) });
    assert!(matches!(a, Action::RequestConversion { .. }));
    let (w, a) = w.handle_event(Event::ConversionReady { property: PROPERTY });
    assert!(matches!(a, Action::ProbeProperty { .. }));
    // The owner announces a chunked transfer: the probe reports the marker.
    let (w, a) = w.handle_event(Event::PropertyProbed {
        value_type: INCREMENTAL,
        byte_count: 1 << 20,
    });
    assert!(matches!(
        a,
        Action::Report { error: WatchError::UnsupportedIncrementalTransfer }
    ));
    // The cycle is over: the engine is idle again, so the next thing it does
    // is answer a new notification, not read the property.
    let (_, a) = w.handle_event(Event::OwnershipChanged);
    assert!(matches!(a, Action::RequestConversion { target: TARGET_LIST, .. }));
}

#[test]
fn refused_conversion_reports_no_targets() {
    let w = OwnershipWatcher::new(vocab());
    let (w, _) = w.handle_event(Event::OwnershipChanged);
    let (_, a) = w.handle_event(Event::ConversionReady { property: 0 });
    assert!(matches!(a, Action::Report { error: WatchError::NoTargetsAvailable }));
}

#[test]
fn unusable_targets_end_the_cycle_without_a_record() {
    let w = OwnershipWatcher::new(vocab());
    let (w, _) = w.handle_event(Event::OwnershipChanged);
    let (w, _) = w.handle_event(Event::ConversionReady { property: PROPERTY });
    let (w, _) = w.handle_event(Event::PropertyProbed { value_type: 77, byte_count: 8 });
    let (w, a) = w.handle_event(Event::PropertyRead { bytes: atom_bytes(&[400]) });
    assert!(matches!(a, Action::ResolveAtom { atom: 400 }));
    let (w, a) = w.handle_event(Event::AtomResolved { name: Some("image/png".to_string()) });
    assert!(matches!(a, Action::Report { error: WatchError::NoTargetsAvailable }));
    // No record was emitted; a second notification still starts fresh.
    let (_, a) = w.handle_event(Event::OwnershipChanged);
    assert!(matches!(a, Action::RequestConversion { .. }));
}

#[test]
fn ragged_target_payload_is_a_decode_error() {
    let w = OwnershipWatcher::new(vocab());
    let (w, _) = w.handle_event(Event::OwnershipChanged);
    let (w, _) = w.handle_event(Event::ConversionReady { property: PROPERTY });
    let (w, _) = w.handle_event(Event::PropertyProbed { value_type: 77, byte_count: 3 });
    let (_, a) = w.handle_event(Event::PropertyRead { bytes: vec![1, 2, 3] });
    assert!(matches!(a, Action::Report { error: WatchError::DecodeError }));
}

#[test]
fn non_utf8_transfer_is_a_decode_error() {
    let w = OwnershipWatcher::new(vocab());
    let (w, _) = w.handle_event(Event::OwnershipChanged);
    let (w, _) = w.handle_event(Event::ConversionReady { property: PROPERTY });
    let (w, _) = w.handle_event(Event::PropertyProbed { value_type: 77, byte_count: 8 });
    let (w, _) = w.handle_event(Event::PropertyRead { bytes: atom_bytes(&[100]) });
    let (w, _) = w.handle_event(Event::AtomResolved { name: Some("TEXT".to_string()) });
    let (w, _) = w.handle_event(Event::ConversionReady { property: PROPERTY });
    let (w, _) = w.handle_event(Event::PropertyProbed { value_type: 55, byte_count: 2 });
    let (_, a) = w.handle_event(Event::PropertyRead { bytes: vec![0xff, 0xfe] });
    assert!(matches!(a, Action::Report { error: WatchError::DecodeError }));
}

#[test]
fn failing_sink_does_not_stop_the_loop() {
    let (w, _) = drive_to_emit(
        OwnershipWatcher::new(vocab()),
        &[(100, "UTF8_STRING")],
        b"first",
        None,
    );
    // The sink rejects the record: the failure is reported, nothing more.
    let (w, a) = w.handle_event(Event::SinkDone { accepted: false });
    assert!(matches!(a, Action::Report { error: WatchError::SinkError }));
    // A second, independent notification still drives a second emission.
    let (w, record) = drive_to_emit(w, &[(100, "UTF8_STRING")], b"second", None);
    assert_eq!(record.get_content(), "second".to_string());
    let (_, a) = w.handle_event(Event::SinkDone { accepted: true });
    assert!(matches!(a, Action::Wait));
}

#[test]
fn notifications_during_a_cycle_do_not_nest_cycles() {
    let w = OwnershipWatcher::new(vocab());
    let (w, _) = w.handle_event(Event::OwnershipChanged);
    // Another ownership change arrives while the engine awaits the owner's
    // answer: it is ignored, the engine keeps waiting.
    let (w, a) = w.handle_event(Event::OwnershipChanged);
    assert!(matches!(a, Action::Wait));
    let (_, a) = w.handle_event(Event::Unrelated);
    assert!(matches!(a, Action::Wait));
}
