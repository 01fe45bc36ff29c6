use line_messaging::batch::{ComposeError, Messages};
use line_messaging::message::{Emoji, Emojis, Message};

fn text(t: &str) -> Message {
    Message::new_text_message(t.to_string(), None, None)
}

#[test]
fn empty_batch_has_length_zero() {
    let batch = Messages::new();
    assert_eq!(batch.len(), 0);
}

#[test]
fn five_adds_succeed_sixth_fails_with_capacity_exceeded() {
    let mut batch = Messages::new();
    for i in 0..5 {
        let r = batch.add(text(&format!("m{}", i)));
        assert!(r.is_ok());
        assert_eq!(batch.len(), i + 1);
    }
    let r = batch.add(text("m5"));
    assert_eq!(r, Err(ComposeError::CapacityExceeded));
    assert_eq!(batch.len(), 5);
}

#[test]
fn batch_keeps_insertion_order() {
    let mut batch = Messages::new();
    batch.add(text("first")).unwrap();
    batch.add(text("second")).unwrap();
    batch.add(text("third")).unwrap();
    let rendered = line_messaging::json::render_json(&batch.to_json());
    assert_eq!(
        rendered,
        "[{\"type\":\"text\",\"text\":\"first\"},{\"type\":\"text\",\"text\":\"second\"},{\"type\":\"text\",\"text\":\"third\"}]"
    );
}

#[test]
fn emoji_placement_beyond_text_length_is_rejected() {
    let mut batch = Messages::new();
    let placements = Emojis::new(vec![Emoji::new(10, "pid".to_string(), "eid".to_string())]);
    let m = Message::new_text_message("hi".to_string(), Some(placements), None);
    let r = batch.add(m);
    assert_eq!(r, Err(ComposeError::InvalidEmojiPlacement));
    assert_eq!(batch.len(), 0);
}

#[test]
fn emoji_placement_at_text_length_is_rejected() {
    let mut batch = Messages::new();
    let placements = Emojis::new(vec![Emoji::new(2, "pid".to_string(), "eid".to_string())]);
    let m = Message::new_text_message("hi".to_string(), Some(placements), None);
    assert_eq!(batch.add(m), Err(ComposeError::InvalidEmojiPlacement));
}

#[test]
fn emoji_placement_inside_text_is_accepted() {
    let mut batch = Messages::new();
    let placements = Emojis::new(vec![Emoji::new(1, "pid".to_string(), "eid".to_string())]);
    let m = Message::new_text_message("hi".to_string(), Some(placements), None);
    assert!(batch.add(m).is_ok());
    assert_eq!(batch.len(), 1);
}

#[test]
fn emoji_placement_on_empty_text_is_rejected() {
    let mut batch = Messages::new();
    let placements = Emojis::new(vec![Emoji::new(0, "pid".to_string(), "eid".to_string())]);
    let m = Message::new_text_message(String::new(), Some(placements), None);
    assert_eq!(batch.add(m), Err(ComposeError::InvalidEmojiPlacement));
}
