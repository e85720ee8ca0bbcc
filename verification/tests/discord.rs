use botrelay::discord::{
    hex_decode, hex_pairs_on_char_boundaries, ActionRow, Component, CreateMessage, DiscordBot,
    IncomingActionRow, IncomingComponent, Interaction, InteractionData, InteractionResponse,
    Message,
};
use botrelay::error::RelayError;

#[test]
fn hex_decode_ok() {
    assert_eq!(hex_decode("00ff10").unwrap(), vec![0, 0xff, 0x10]);
}

#[test]
fn hex_decode_rejects_odd_length() {
    assert!(hex_decode("abc").is_err());
}

#[test]
fn hex_decode_rejects_non_hex() {
    assert!(hex_decode("zz").is_err());
}

#[test]
fn hex_decode_details() {
    assert_eq!(hex_decode("").unwrap(), Vec::<u8>::new());
    assert_eq!(hex_decode("AbCd").unwrap(), vec![0xab, 0xcd]);
    // `u8::from_str_radix` accepts a leading plus sign.
    assert_eq!(hex_decode("+f").unwrap(), vec![0x0f]);
    assert!(matches!(hex_decode("-f"), Err(RelayError::HexInvalid)));
    assert!(matches!(hex_decode("abc"), Err(RelayError::HexOddLength)));
    assert!(matches!(hex_decode("0g"), Err(RelayError::HexInvalid)));
    // A two-byte character is a chunk of its own, and not a number.
    assert!(matches!(hex_decode("é"), Err(RelayError::HexInvalid)));
    assert!(matches!(hex_decode("é0"), Err(RelayError::HexOddLength)));
    assert_eq!(RelayError::HexOddLength.to_string(), "hex: odd length");
    assert_eq!(RelayError::HexInvalid.to_string(), "hex: invalid");
}

#[test]
fn hex_chunk_boundaries() {
    assert!(hex_pairs_on_char_boundaries("00ff"));
    assert!(hex_pairs_on_char_boundaries("abc"));
    assert!(hex_pairs_on_char_boundaries("é0"));
    assert!(hex_pairs_on_char_boundaries("é"));
    // "a" then the first byte of "é": slicing would cut the character.
    assert!(!hex_pairs_on_char_boundaries("aéb"));
}

fn ping() -> Interaction {
    Interaction {
        id: "1".into(),
        token: "t".into(),
        kind: 1,
        data: None,
        message: None,
        channel_id: None,
    }
}

#[test]
fn interaction_kind_helpers() {
    let ping = ping();
    assert!(ping.is_ping());
    assert!(!ping.is_component_click());
    assert!(!ping.is_modal_submit());

    let component = Interaction { kind: 3, ..ping.clone() };
    assert!(component.is_component_click());

    let modal = Interaction { kind: 5, ..ping };
    assert!(modal.is_modal_submit());
}

fn opt_string(v: &serde_json::Value, key: &str) -> Option<String> {
    v.get(key).and_then(|x| x.as_str()).map(|s| s.to_string())
}

/// Reads an interaction body the way the webhook handler maps it onto the
/// library's types: only the modeled fields, unknown fields ignored.
fn interaction_from_json(body: &[u8]) -> Interaction {
    let v: serde_json::Value = serde_json::from_slice(body).unwrap();
    Interaction {
        id: v["id"].as_str().unwrap().to_string(),
        token: v["token"].as_str().unwrap().to_string(),
        kind: v["type"].as_u64().unwrap() as u8,
        data: v.get("data").map(|d| InteractionData {
            custom_id: opt_string(d, "custom_id"),
            components: d.get("components").map(|rows| {
                rows.as_array()
                    .unwrap()
                    .iter()
                    .map(|row| IncomingActionRow {
                        components: row["components"]
                            .as_array()
                            .unwrap()
                            .iter()
                            .map(|c| IncomingComponent {
                                custom_id: c["custom_id"].as_str().unwrap().to_string(),
                                value: opt_string(c, "value"),
                            })
                            .collect(),
                    })
                    .collect()
            }),
        }),
        message: v.get("message").map(|m| Message {
            id: m["id"].as_str().unwrap().to_string(),
            content: opt_string(m, "content"),
            channel_id: m["channel_id"].as_str().unwrap().to_string(),
        }),
        channel_id: opt_string(&v, "channel_id"),
    }
}

#[test]
fn parse_modal_submit() {
    let body = br#"{
        "id": "1",
        "token": "t",
        "type": 5,
        "channel_id": "c",
        "data": {
            "custom_id": "reply:tg:abc",
            "components": [
                {"components": [{"custom_id": "reply_text", "value": "My reply"}]}
            ]
        }
    }"#;
    let interaction = interaction_from_json(body);
    assert!(interaction.is_modal_submit());
    assert_eq!(
        interaction.data.as_ref().unwrap().custom_id.as_deref(),
        Some("reply:tg:abc")
    );
    assert_eq!(interaction.modal_text("reply_text"), Some("My reply"));
    assert_eq!(interaction.modal_text("missing"), None);
}

#[test]
fn parse_button_click_keeps_message() {
    let body = br#"{
        "id": "1",
        "token": "t",
        "type": 3,
        "channel_id": "c",
        "message": {"id": "m1", "channel_id": "c", "content": "hello"},
        "data": {"custom_id": "reply:dc:xyz"}
    }"#;
    let i = interaction_from_json(body);
    assert!(i.is_component_click());
    assert_eq!(i.message.as_ref().unwrap().id, "m1");
    assert_eq!(
        i.data.as_ref().unwrap().custom_id.as_deref(),
        Some("reply:dc:xyz")
    );
}

#[test]
fn modal_text_takes_first_match_across_rows() {
    let comp = |id: &str, value: Option<&str>| IncomingComponent {
        custom_id: id.to_string(),
        value: value.map(|v| v.to_string()),
    };
    let interaction = Interaction {
        kind: 5,
        data: Some(InteractionData {
            custom_id: None,
            components: Some(vec![
                IncomingActionRow { components: vec![comp("a", Some("1"))] },
                IncomingActionRow { components: vec![comp("b", None), comp("c", Some("3"))] },
                IncomingActionRow { components: vec![comp("c", Some("4")), comp("b", Some("5"))] },
            ]),
        }),
        ..ping()
    };
    assert_eq!(interaction.modal_text("a"), Some("1"));
    assert_eq!(interaction.modal_text("c"), Some("3"));
    // The first "b" carries no value, and the search stops there.
    assert_eq!(interaction.modal_text("b"), None);
    assert_eq!(interaction.modal_text("z"), None);
    let no_components = Interaction {
        data: Some(InteractionData { custom_id: None, components: None }),
        ..ping()
    };
    assert_eq!(no_components.modal_text("a"), None);
}

#[test]
fn bot_urls_and_header() {
    let bot = DiscordBot::new("tok".into(), "app1".into(), "00".into());
    assert_eq!(bot.application_id(), "app1");
    assert_eq!(bot.authorization(), "Bot tok");
    assert_eq!(
        bot.create_message_url("chan"),
        "https://discord.com/api/v10/channels/chan/messages"
    );
    assert_eq!(
        bot.interaction_callback_url("i9", "itok"),
        "https://discord.com/api/v10/interactions/i9/itok/callback"
    );
    assert_eq!(bot.followup_url("itok"), "https://discord.com/api/v10/webhooks/app1/itok");
}

#[test]
fn check_response_status() {
    assert_eq!(DiscordBot::check_response(200, "ok".into()).unwrap(), "ok");
    assert_eq!(DiscordBot::check_response(399, "x".into()).unwrap(), "x");
    let err = DiscordBot::check_response(404, "Unknown Channel".into()).unwrap_err();
    assert_eq!(err.to_string(), "discord API 404: Unknown Channel");
}

#[test]
fn verification_input_decodes_key_and_signature() {
    let bot = DiscordBot::new("tok".into(), "app".into(), "a1B2".into());
    let input = bot.verification_input("ff00", "1700", "{\"type\":1}").unwrap();
    assert_eq!(input.public_key, vec![0xa1, 0xb2]);
    assert_eq!(input.signature, vec![0xff, 0x00]);
    assert_eq!(input.message, "1700{\"type\":1}");
    assert!(matches!(
        bot.verification_input("f", "1", "b"),
        Err(RelayError::HexOddLength)
    ));
    let bad_key = DiscordBot::new("tok".into(), "app".into(), "xx".into());
    assert!(matches!(
        bad_key.verification_input("ff", "1", "b"),
        Err(RelayError::HexInvalid)
    ));
}

#[test]
fn components_and_responses() {
    let button = Component::primary_button("reply:tg:msg42".into(), "Reply".into());
    assert_eq!(button.component_type, 2);
    assert_eq!(button.style, Some(1));
    assert_eq!(button.custom_id, "reply:tg:msg42");
    assert_eq!(button.label.as_deref(), Some("Reply"));
    let input = Component::paragraph_input("reply_text".into(), "Your reply".into());
    assert_eq!(input.component_type, 4);
    assert_eq!(input.style, Some(2));
    assert_eq!(input.required, Some(true));
    assert!(input.value.is_none());
    let row = ActionRow::new(vec![input]);
    assert_eq!(row.component_type(), 1);
    assert_eq!(row.components()[0].custom_id, "reply_text");
    assert!(matches!(InteractionResponse::pong(), InteractionResponse::Pong { kind: 1 }));
    assert!(matches!(
        InteractionResponse::deferred_update(),
        InteractionResponse::DeferredUpdate { kind: 6 }
    ));
    match InteractionResponse::ephemeral_message("done".into()) {
        InteractionResponse::Message { kind, data } => {
            assert_eq!(kind, 4);
            assert_eq!(data.content, "done");
            assert_eq!(data.flags, Some(64));
        }
        _ => panic!("not a message"),
    }
    match InteractionResponse::modal("reply:tg:abc".into(), "Reply".into(), vec![row]) {
        InteractionResponse::Modal { kind, data } => {
            assert_eq!(kind, 9);
            assert_eq!(data.custom_id, "reply:tg:abc");
            assert_eq!(data.title, "Reply");
            assert_eq!(data.components[0].component_type(), 1);
        }
        _ => panic!("not a modal"),
    }
    let m = CreateMessage { content: "plain".into(), ..Default::default() };
    assert!(m.components.is_empty());
    assert!(m.flags.is_none());
}

#[test]
fn hex_decode_inverts_lowercase_hex() {
    let bytes: Vec<u8> = (0..=255u8).collect();
    let hex: String = bytes.iter().map(|b| format!("{b:02x}")).collect();
    assert_eq!(hex_decode(&hex).unwrap(), bytes);
}
