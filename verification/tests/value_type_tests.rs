use line_messaging::json::{render_json, JsonValue};
use line_messaging::message::{
    Action, Actions, Area, BaseSize, Emoji, Emojis, ExternalLink, Sender, Video,
};

#[test]
fn sender_new_keeps_fields() {
    let s = Sender::new(Some("Bot".to_string()), None);
    assert_eq!(s.name.as_deref(), Some("Bot"));
    assert!(s.icon_url.is_none());
}

#[test]
fn emoji_new_keeps_fields() {
    let e = Emoji::new(4, "p".to_string(), "e".to_string());
    assert_eq!(e.index, 4);
    assert_eq!(e.product_id, "p");
    assert_eq!(e.emoji_id, "e");
}

#[test]
fn emojis_new_keeps_placements() {
    let es = Emojis::new(vec![Emoji::new(0, "p".to_string(), "e".to_string())]);
    assert_eq!(es.emojis.len(), 1);
    assert_eq!(es.emojis[0].index, 0);
}

#[test]
fn base_size_and_area_keep_fields() {
    let b = BaseSize::new(1040, 520);
    assert_eq!((b.width, b.height), (1040, 520));
    let a = Area::new(1, 2, 3, 4);
    assert_eq!((a.x, a.y, a.width, a.height), (1, 2, 3, 4));
}

#[test]
fn external_link_and_video_keep_fields() {
    let l = ExternalLink::new("https://example.com".to_string(), "More".to_string());
    assert_eq!(l.link_uri, "https://example.com");
    assert_eq!(l.label, "More");
    let v = Video::new(
        "https://cdn.example/c.mp4".to_string(),
        "https://cdn.example/c.jpg".to_string(),
        Area::new(0, 0, 10, 10),
        l,
    );
    assert_eq!(v.original_content_url, "https://cdn.example/c.mp4");
    assert_eq!(v.preview_image_url, "https://cdn.example/c.jpg");
    assert_eq!(v.area.width, 10);
    assert_eq!(v.external_link.label, "More");
}

#[test]
fn action_constructors_pick_the_variant() {
    let u = Action::new_uri_action(
        "open".to_string(),
        "https://example.com".to_string(),
        Area::new(0, 0, 1, 1),
    );
    assert!(matches!(u, Action::URI { .. }));
    let m = Action::new_message_action(
        "say".to_string(),
        "hello".to_string(),
        Area::new(0, 0, 1, 1),
    );
    assert!(matches!(m, Action::Message { .. }));
}

#[test]
fn actions_new_is_empty() {
    assert_eq!(Actions::new().actions.len(), 0);
}

#[test]
fn scalars_render_as_json() {
    assert_eq!(render_json(&JsonValue::Null), "null");
    assert_eq!(render_json(&JsonValue::Bool(true)), "true");
    assert_eq!(render_json(&JsonValue::Bool(false)), "false");
    assert_eq!(render_json(&JsonValue::UInt(0)), "0");
    assert_eq!(render_json(&JsonValue::UInt(18446744073709551615)), "18446744073709551615");
    assert_eq!(render_json(&JsonValue::Micro(1_500_000)), "1.500000");
    assert_eq!(render_json(&JsonValue::Micro(-1_000_000_000)), "-1000.000000");
    assert_eq!(render_json(&JsonValue::Str("a\"b".to_string())), "\"a\\\"b\"");
    assert_eq!(render_json(&JsonValue::Arr(Vec::new())), "[]");
    assert_eq!(render_json(&JsonValue::Obj(Vec::new())), "{}");
    let nested = JsonValue::Obj(vec![(
        "k".to_string(),
        JsonValue::Arr(vec![JsonValue::UInt(1), JsonValue::Null]),
    )]);
    assert_eq!(render_json(&nested), "{\"k\":[1,null]}");
}
