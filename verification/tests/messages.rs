use tora_backend::message::{
    build_completion_response, build_message_response, make_record, validate_message_info,
    MessageInfo, MessageRecord,
};

fn info(bot: &str, user: &str, name: Option<&str>, msg: &str, chan: &str, at: &str) -> MessageInfo {
    MessageInfo {
        bot_id: bot.to_string(),
        user_id: user.to_string(),
        user_name: name.map(|n| n.to_string()),
        generated_by: "bot".to_string(),
        message: msg.to_string(),
        message_type: "chat".to_string(),
        channel_id: chan.to_string(),
        post_at: at.to_string(),
    }
}

fn record(user_name: Option<&str>, msg: &str, at: &str) -> MessageRecord {
    MessageRecord {
        id: "r".to_string(),
        bot_id: "b".to_string(),
        user_id: "u".to_string(),
        user_name: user_name.map(|n| n.to_string()),
        generated_by: "model".to_string(),
        message: msg.to_string(),
        message_type: "chat".to_string(),
        channel_id: "c".to_string(),
        post_at: at.to_string(),
    }
}

#[test]
fn validate_accepts_a_full_record() {
    let payload = info("b", "u", Some("n"), "hello", "c", "2023-01-01T00:00:00Z");
    assert!(validate_message_info(payload).is_ok());
}

#[test]
fn validate_accepts_a_record_without_user_name() {
    let payload = info("b", "u", None, "hello", "c", "2023-01-01T00:00:00Z");
    assert!(validate_message_info(payload).is_ok());
}

#[test]
fn validate_reports_the_first_missing_field() {
    let e = validate_message_info(info("", "", None, "", "", "")).unwrap_err();
    assert_eq!(e.error_message, "Bot id cannot be empty.");
    let e = validate_message_info(info("b", "", None, "", "", "")).unwrap_err();
    assert_eq!(e.error_message, "User ID cannot be empty.");
    let e = validate_message_info(info("b", "u", Some(""), "", "", "")).unwrap_err();
    assert_eq!(e.error_message, "User name cannot be empty.");
    let e = validate_message_info(info("b", "u", Some("n"), "", "", "")).unwrap_err();
    assert_eq!(e.error_message, "Message cannot be empty.");
    let e = validate_message_info(info("b", "u", None, "m", "", "")).unwrap_err();
    assert_eq!(e.error_message, "Channel ID cannot be empty.");
    let e = validate_message_info(info("b", "u", None, "m", "c", "")).unwrap_err();
    assert_eq!(e.error_message, "Post time cannot be empty.");
}

#[test]
fn make_record_mints_a_document_id() {
    let payload = info("b", "u", None, "m", "c", "2023-01-01T00:00:00Z");
    let rec = make_record(payload);
    assert_eq!(rec.id.len(), 36);
    assert!(uuid::Uuid::parse_str(&rec.id).is_ok());
    assert_eq!(rec.bot_id, "b");
    assert_eq!(rec.message, "m");
}

#[test]
fn completion_context_replays_oldest_first() {
    let records = vec![
        record(None, "second", "2023-01-02T00:00:00Z"),
        record(None, "third", "2023-01-03T00:00:00Z"),
        record(None, "first", "2023-01-01T00:00:00Z"),
    ];
    let resp = build_completion_response("b".to_string(), "u".to_string(), records);
    assert_eq!(resp.bot_id, "b");
    assert_eq!(resp.user_id, "u");
    let texts: Vec<&str> = resp.messages.iter().map(|m| m.message.as_str()).collect();
    assert_eq!(texts, vec!["first", "second", "third"]);
}

#[test]
fn completion_context_stops_at_the_budget() {
    let long_a = "a".repeat(600);
    let long_b = "b".repeat(600);
    let records = vec![
        record(None, &long_a, "2023-01-01T00:00:00Z"),
        record(None, &long_b, "2023-01-02T00:00:00Z"),
        record(None, "tiny", "2023-01-03T00:00:00Z"),
    ];
    // Newest first: tiny (4), then b*600 (604 in all), then a*600 would pass
    // 1000, so it is dropped.
    let resp = build_completion_response("b".to_string(), "u".to_string(), records);
    let texts: Vec<&str> = resp.messages.iter().map(|m| m.message.as_str()).collect();
    assert_eq!(texts, vec![long_b.as_str(), "tiny"]);
}

#[test]
fn completion_context_of_no_records_is_empty() {
    let resp = build_completion_response("b".to_string(), "u".to_string(), Vec::new());
    assert!(resp.messages.is_empty());
}

#[test]
fn message_context_stops_at_an_unnamed_record() {
    let records = vec![
        record(Some("alice"), "one", "2023-01-01T00:00:00Z"),
        record(None, "two", "2023-01-02T00:00:00Z"),
        record(Some("carol"), "three", "2023-01-03T00:00:00Z"),
    ];
    // Newest first: three (named), then two has no user name, so the walk
    // stops there and "one" is never reached.
    let resp = build_message_response("b".to_string(), records);
    assert_eq!(resp.messages.len(), 1);
    assert_eq!(resp.messages[0].message, "three");
    assert_eq!(resp.messages[0].user_name, "carol");
}

#[test]
fn message_context_keeps_document_order_between_equal_stamps() {
    let records = vec![
        record(Some("a"), "first-listed", "2023-01-01T00:00:00Z"),
        record(Some("b"), "second-listed", "2023-01-01T00:00:00Z"),
    ];
    // Equal timestamps: the retrieval order keeps document order, and the
    // reply replays it oldest last-to-first, so document order survives.
    let resp = build_message_response("b".to_string(), records);
    let texts: Vec<&str> = resp.messages.iter().map(|m| m.message.as_str()).collect();
    assert_eq!(texts, vec!["second-listed", "first-listed"]);
}

#[test]
fn unparsable_stamps_sort_as_the_epoch() {
    let records = vec![
        record(Some("a"), "broken-stamp", "not a timestamp"),
        record(Some("b"), "dated", "2023-01-01T00:00:00Z"),
    ];
    let resp = build_message_response("b".to_string(), records);
    let texts: Vec<&str> = resp.messages.iter().map(|m| m.message.as_str()).collect();
    assert_eq!(texts, vec!["broken-stamp", "dated"]);
}
