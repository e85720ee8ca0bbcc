use botrelay::ReplyContext;

#[test]
fn keys_format() {
    assert_eq!(ReplyContext::telegram_key("-100123", 42), "tg:-100123:42");
    assert_eq!(
        ReplyContext::discord_key("987654321", "msg_abc"),
        "dc:987654321:msg_abc"
    );
}

#[test]
fn telegram_key_renders_negative_and_extreme_ids() {
    assert_eq!(ReplyContext::telegram_key("c", -7), "tg:c:-7");
    assert_eq!(ReplyContext::telegram_key("c", 0), "tg:c:0");
    assert_eq!(
        ReplyContext::telegram_key("c", i64::MIN),
        "tg:c:-9223372036854775808"
    );
    assert_eq!(
        ReplyContext::telegram_key("c", i64::MAX),
        "tg:c:9223372036854775807"
    );
}

#[test]
fn telegram_key_separates_chat_and_message() {
    // The last ':' separates the chat id from the message id.
    let a = ReplyContext::telegram_key("a:1", 2);
    let b = ReplyContext::telegram_key("a", 12);
    assert_ne!(a, b);
    assert_eq!(a, "tg:a:1:2");
}

#[test]
fn key_namespaces_differ() {
    let tg = ReplyContext::telegram_key("1", 2);
    let dc = ReplyContext::discord_key("1", "2");
    assert_ne!(tg, dc);
    assert!(tg.starts_with("tg:"));
    assert!(dc.starts_with("dc:"));
}

#[test]
fn reply_context_holds_its_fields() {
    let ctx = ReplyContext {
        alias: "shop@kedi.dev".into(),
        original_sender: "noreply@swiggy.in".into(),
        subject: "Your order".into(),
    };
    let back = ctx.clone();
    assert_eq!(back.alias, ctx.alias);
    assert_eq!(back.original_sender, ctx.original_sender);
    assert_eq!(back.subject, ctx.subject);
}
