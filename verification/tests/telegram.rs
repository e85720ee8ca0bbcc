use botrelay::error::RelayError;
use botrelay::multipart::MultipartBuilder;
use botrelay::telegram::{
    extract_ok, parse_mode_wire, ApiEnvelope, Chat, Message, ParseMode, SendMessage, SendPhoto,
    TelegramBot, Update, User,
};

fn chat(id: i64, kind: &str) -> Chat {
    Chat { id, chat_type: kind.to_string(), title: None, username: None }
}

fn message(id: i64, chat: Chat, text: Option<&str>) -> Message {
    Message {
        message_id: id,
        chat,
        text: text.map(|t| t.to_string()),
        reply_to_message: None,
        from: None,
    }
}

fn str_field<'a>(v: &'a serde_json::Value, key: &str) -> Option<&'a str> {
    v.get(key).and_then(|x| x.as_str())
}

/// Reads a webhook body the way the webhook handler maps it onto the
/// library's types: only the modeled fields, unknown fields ignored.
fn message_from_json(v: &serde_json::Value) -> Message {
    let c = &v["chat"];
    Message {
        message_id: v["message_id"].as_i64().unwrap(),
        chat: Chat {
            id: c["id"].as_i64().unwrap(),
            chat_type: c["type"].as_str().unwrap().to_string(),
            title: str_field(c, "title").map(|s| s.to_string()),
            username: str_field(c, "username").map(|s| s.to_string()),
        },
        text: str_field(v, "text").map(|s| s.to_string()),
        reply_to_message: v.get("reply_to_message").map(|r| Box::new(message_from_json(r))),
        from: v.get("from").map(|f| User {
            id: f["id"].as_i64().unwrap(),
            username: str_field(f, "username").map(|s| s.to_string()),
            first_name: str_field(f, "first_name").map(|s| s.to_string()),
        }),
    }
}

fn update_from_json(body: &[u8]) -> Update {
    let v: serde_json::Value = serde_json::from_slice(body).unwrap();
    Update {
        update_id: v["update_id"].as_i64().unwrap(),
        message: v.get("message").map(message_from_json),
        edited_message: v.get("edited_message").map(message_from_json),
    }
}

#[test]
fn parse_reply_update() {
    let body = br#"{
        "update_id": 1,
        "message": {
            "message_id": 42,
            "chat": {"id": -10042, "type": "group", "title": "Inbox"},
            "text": "Thanks!",
            "from": {"id": 1, "first_name": "A"},
            "reply_to_message": {
                "message_id": 17,
                "chat": {"id": -10042, "type": "group"},
                "text": "(forwarded) Subject: Order"
            }
        }
    }"#;
    let update = update_from_json(body);
    let msg = update.any_message().expect("message");
    assert_eq!(msg.text.as_deref(), Some("Thanks!"));
    let replied = msg.reply_to_message.as_ref().expect("reply");
    assert_eq!(replied.message_id, 17);
    assert_eq!(replied.chat.id, -10042);
}

#[test]
fn parse_update_ignores_unknown_fields() {
    let body = br#"{
        "update_id": 2,
        "message": {
            "message_id": 1,
            "chat": {"id": 1, "type": "private"},
            "forwarded_from_chat": {"id": 99, "type": "channel"},
            "newtype_tomorrow": [1,2,3]
        }
    }"#;
    let update = update_from_json(body);
    assert_eq!(update.update_id, 2);
    assert_eq!(update.any_message().unwrap().chat.id, 1);
}

#[test]
fn parse_edited_message() {
    let body = br#"{
        "update_id": 3,
        "edited_message": {
            "message_id": 1,
            "chat": {"id": 1, "type": "private"},
            "text": "edit"
        }
    }"#;
    let update = update_from_json(body);
    assert!(update.message.is_none());
    assert_eq!(update.any_message().unwrap().text.as_deref(), Some("edit"));
}

#[test]
fn any_message_prefers_new_message() {
    let update = Update {
        update_id: 9,
        message: Some(message(1, chat(5, "private"), Some("new"))),
        edited_message: Some(message(2, chat(5, "private"), Some("edited"))),
    };
    assert_eq!(update.any_message().unwrap().message_id, 1);
    let empty = Update { update_id: 10, message: None, edited_message: None };
    assert!(empty.any_message().is_none());
}

#[test]
fn api_envelope_error() {
    let env = ApiEnvelope::<serde_json::Value> {
        ok: false,
        description: Some("Bad Request".into()),
        result: None,
    };
    let err = extract_ok::<serde_json::Value>(env).unwrap_err();
    let s = err.to_string();
    assert!(s.contains("Bad Request"), "unexpected: {s}");
}

#[test]
fn api_envelope_error_without_description() {
    let env = ApiEnvelope::<serde_json::Value> { ok: false, description: None, result: None };
    let err = extract_ok(env).unwrap_err();
    assert_eq!(err.to_string(), "telegram API error: unknown");
}

#[test]
fn api_envelope_missing_result() {
    let env = ApiEnvelope::<i64> { ok: true, description: None, result: None };
    let err = extract_ok(env).unwrap_err();
    assert!(matches!(err, RelayError::TelegramMissingResult));
    assert_eq!(err.to_string(), "telegram API: missing result");
}

#[test]
fn api_envelope_ok_gives_result() {
    let env = ApiEnvelope { ok: true, description: Some("ignored".to_string()), result: Some(7i64) };
    assert_eq!(extract_ok(env).unwrap(), 7);
}

#[test]
fn method_url_includes_token_and_method() {
    let bot = TelegramBot::new("123:ABC".to_string());
    assert_eq!(
        bot.method_url("sendMessage"),
        "https://api.telegram.org/bot123:ABC/sendMessage"
    );
}

#[test]
fn parse_mode_wire_names() {
    assert_eq!(parse_mode_wire(ParseMode::Html), "HTML");
    assert_eq!(parse_mode_wire(ParseMode::MarkdownV2), "MarkdownV2");
}

#[test]
fn send_message_defaults() {
    let sm = SendMessage { chat_id: "-1001".into(), text: "hello".into(), ..Default::default() };
    assert_eq!(sm.chat_id, "-1001");
    assert!(sm.parse_mode.is_none());
    assert!(sm.disable_preview.is_none());
    assert!(sm.reply_to_message_id.is_none());
}

#[test]
fn send_photo_form_minimal_uses_defaults() {
    let mut mp = MultipartBuilder::with_boundary("B".to_string());
    let params = SendPhoto { chat_id: "42".into(), photo: vec![9, 8], ..Default::default() };
    TelegramBot::send_photo_form(&mut mp, &params);
    let body = mp.finish();
    let mut expected: Vec<u8> = Vec::new();
    expected.extend_from_slice(b"--B\r\nContent-Disposition: form-data; name=\"chat_id\"\r\n\r\n42\r\n");
    expected.extend_from_slice(
        b"--B\r\nContent-Disposition: form-data; name=\"photo\"; filename=\"photo.png\"\r\nContent-Type: image/png\r\n\r\n",
    );
    expected.extend_from_slice(&[9, 8]);
    expected.extend_from_slice(b"\r\n--B--\r\n");
    assert_eq!(body, expected);
}

#[test]
fn send_photo_form_with_all_fields() {
    let mut mp = MultipartBuilder::with_boundary("B".to_string());
    let params = SendPhoto {
        chat_id: "42".into(),
        photo: vec![1],
        photo_filename: "shot.jpg".into(),
        photo_content_type: "image/jpeg".into(),
        caption: Some("cap".into()),
        parse_mode: Some(ParseMode::MarkdownV2),
        disable_notification: Some(false),
        reply_to_message_id: Some(-5),
    };
    TelegramBot::send_photo_form(&mut mp, &params);
    let s = String::from_utf8(mp.finish()).unwrap();
    let order = [
        "name=\"chat_id\"\r\n\r\n42\r\n",
        "name=\"caption\"\r\n\r\ncap\r\n",
        "name=\"parse_mode\"\r\n\r\nMarkdownV2\r\n",
        "name=\"disable_notification\"\r\n\r\nfalse\r\n",
        "name=\"reply_to_message_id\"\r\n\r\n-5\r\n",
        "name=\"photo\"; filename=\"shot.jpg\"\r\nContent-Type: image/jpeg\r\n\r\n\u{1}\r\n--B--\r\n",
    ];
    let mut pos = 0;
    for part in order {
        let at = s[pos..].find(part).expect(part) + pos;
        pos = at + part.len();
    }
    assert_eq!(pos, s.len());
}
