use clipboard2json::records::ClipboardData;
use std::time::{SystemTime, UNIX_EPOCH};

fn now_secs() -> u64 {
    SystemTime::now().duration_since(UNIX_EPOCH).unwrap().as_secs()
}

#[test]
fn get_content_returns_the_text_of_either_variant() {
    let h = ClipboardData::html("<b>x</b>".to_string(), Some("editor".to_string()), None, 7);
    assert_eq!(h.get_content(), "<b>x</b>".to_string());
    let t = ClipboardData::unicode_text("plain".to_string(), None, 7);
    assert_eq!(t.get_content(), "plain".to_string());
}

#[test]
fn new_from_triple_builds_an_html_record() {
    let before = now_secs();
    let r = ClipboardData::new((
        "<p>hi</p>".to_string(),
        Some("browser".to_string()),
        None::<String>,
    ));
    let after = now_secs();
    match r {
        ClipboardData::Html { content, owner, url, created_at } => {
            assert_eq!(content, "<p>hi</p>".to_string());
            assert_eq!(owner, Some("browser".to_string()));
            assert_eq!(url, None);
            assert!(before <= created_at && created_at <= after);
        }
        _ => panic!("a triple must become an Html record"),
    }
}

#[test]
fn new_from_pair_builds_a_text_record() {
    let before = now_secs();
    let r = ClipboardData::new(("hello".to_string(), Some("terminal".to_string())));
    let after = now_secs();
    match r {
        ClipboardData::UnicodeText { content, owner, created_at } => {
            assert_eq!(content, "hello".to_string());
            assert_eq!(owner, Some("terminal".to_string()));
            assert!(before <= created_at && created_at <= after);
        }
        _ => panic!("a pair must become a UnicodeText record"),
    }
}

#[test]
fn for_target_follows_the_chosen_kind() {
    let h = ClipboardData::for_target(true, "c".to_string(), None, 3);
    assert!(matches!(h, ClipboardData::Html { url: None, created_at: 3, .. }));
    let t = ClipboardData::for_target(false, "c".to_string(), Some("o".to_string()), 4);
    assert!(matches!(t, ClipboardData::UnicodeText { created_at: 4, .. }));
}
