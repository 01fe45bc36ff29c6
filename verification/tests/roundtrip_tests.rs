use line_messaging::json::render_json;
use line_messaging::message::{
    message_from_json, message_to_json, Action, Actions, Area, BaseSize, Emoji, Emojis,
    ExternalLink, Message, Sender, Video,
};

fn round_trips(m: &Message) {
    let encoded = message_to_json(m);
    let first = render_json(&encoded);
    let back = message_from_json(&encoded).expect("wire object of a message must decode");
    let second = render_json(&message_to_json(&back));
    assert_eq!(first, second);
}

fn full_sender() -> Option<Sender> {
    Some(Sender::new(Some("Bot".to_string()), Some("https://icons.example/a.png".to_string())))
}

#[test]
fn text_message_round_trips() {
    let plain = Message::new_text_message("hello".to_string(), None, None);
    round_trips(&plain);
    let placements = Emojis::new(vec![
        Emoji::new(0, "p1".to_string(), "e1".to_string()),
        Emoji::new(3, "p2".to_string(), "e2".to_string()),
    ]);
    let rich = Message::new_text_message("hello".to_string(), Some(placements), full_sender());
    round_trips(&rich);
}

#[test]
fn sticker_message_round_trips() {
    round_trips(&Message::new_sticker_message("446".to_string(), "1988".to_string(), None));
    round_trips(&Message::new_sticker_message("1".to_string(), "2".to_string(), full_sender()));
}

#[test]
fn image_message_round_trips() {
    round_trips(&Message::new_image_message(
        "https://cdn.example/full.jpg".to_string(),
        "https://cdn.example/prev.jpg".to_string(),
        None,
    ));
}

#[test]
fn video_message_round_trips() {
    round_trips(&Message::new_video_message(
        "https://cdn.example/full.mp4".to_string(),
        "https://cdn.example/prev.jpg".to_string(),
        full_sender(),
    ));
}

#[test]
fn audio_message_round_trips() {
    round_trips(&Message::new_audio_message(
        "https://cdn.example/sound.m4a".to_string(),
        60000,
        None,
    ));
}

#[test]
fn location_message_round_trips() {
    round_trips(&Message::new_location_message(
        "HQ".to_string(),
        "1 Example Street".to_string(),
        35658581,
        139745438,
        None,
    ));
    round_trips(&Message::new_location_message(
        "South".to_string(),
        "Somewhere".to_string(),
        -500000,
        -139745438,
        full_sender(),
    ));
}

#[test]
fn imagemap_message_round_trips() {
    let mut actions = Actions::new();
    actions.actions.push(Action::new_uri_action(
        "open".to_string(),
        "https://example.com".to_string(),
        Area::new(0, 0, 520, 1040),
    ));
    actions.actions.push(Action::new_message_action(
        "say".to_string(),
        "hello".to_string(),
        Area::new(520, 0, 520, 1040),
    ));
    let video = Video::new(
        "https://cdn.example/clip.mp4".to_string(),
        "https://cdn.example/clip.jpg".to_string(),
        Area::new(0, 0, 1040, 585),
        ExternalLink::new("https://example.com/more".to_string(), "More".to_string()),
    );
    let m = Message::new_imagemap_message(
        "https://cdn.example/map".to_string(),
        "alt".to_string(),
        BaseSize::new(1040, 1040),
        Some(video),
        actions,
        full_sender(),
    );
    round_trips(&m);
    let bare = Message::new_imagemap_message(
        "https://cdn.example/map".to_string(),
        "alt".to_string(),
        BaseSize::new(1040, 1040),
        None,
        Actions::new(),
        None,
    );
    round_trips(&bare);
}

#[test]
fn text_message_renders_expected_wire_text() {
    let m = Message::new_text_message("hello".to_string(), None, None);
    assert_eq!(render_json(&message_to_json(&m)), "{\"type\":\"text\",\"text\":\"hello\"}");
}

#[test]
fn text_message_with_emojis_renders_expected_wire_text() {
    let placements = Emojis::new(vec![Emoji::new(0, "pid".to_string(), "eid".to_string())]);
    let m = Message::new_text_message("$ hi".to_string(), Some(placements), None);
    assert_eq!(
        render_json(&message_to_json(&m)),
        "{\"type\":\"text\",\"text\":\"$ hi\",\"emojis\":[{\"index\":0,\"productId\":\"pid\",\"emojiId\":\"eid\"}]}"
    );
}

#[test]
fn sender_renders_last_with_camel_case_icon_url() {
    let m = Message::new_sticker_message("446".to_string(), "1988".to_string(), full_sender());
    assert_eq!(
        render_json(&message_to_json(&m)),
        "{\"type\":\"sticker\",\"packageId\":\"446\",\"stickerId\":\"1988\",\"sender\":{\"name\":\"Bot\",\"iconUrl\":\"https://icons.example/a.png\"}}"
    );
}

#[test]
fn location_message_renders_fixed_point_coordinates() {
    let m = Message::new_location_message(
        "HQ".to_string(),
        "1 Example Street".to_string(),
        35658581,
        -500000,
        None,
    );
    assert_eq!(
        render_json(&message_to_json(&m)),
        "{\"type\":\"location\",\"title\":\"HQ\",\"address\":\"1 Example Street\",\"latitude\":35.658581,\"longitude\":-0.500000}"
    );
}

#[test]
fn audio_message_renders_duration_as_number() {
    let m = Message::new_audio_message("https://cdn.example/s.m4a".to_string(), 60000, None);
    assert_eq!(
        render_json(&message_to_json(&m)),
        "{\"type\":\"audio\",\"originalContentUrl\":\"https://cdn.example/s.m4a\",\"duration\":60000}"
    );
}

#[test]
fn text_is_escaped_in_wire_form() {
    let m = Message::new_text_message("a\"b\\c\nd".to_string(), None, None);
    assert_eq!(
        render_json(&message_to_json(&m)),
        "{\"type\":\"text\",\"text\":\"a\\\"b\\\\c\\u000ad\"}"
    );
}

#[test]
fn tampered_discriminator_does_not_decode() {
    let m = Message::new_text_message("hello".to_string(), None, None);
    let encoded = message_to_json(&m);
    let tampered = match encoded {
        line_messaging::json::JsonValue::Obj(mut ps) => {
            ps[0].1 = line_messaging::json::JsonValue::Str("telegram".to_string());
            line_messaging::json::JsonValue::Obj(ps)
        },
        _ => panic!("message wire form must be an object"),
    };
    assert!(message_from_json(&tampered).is_none());
}
