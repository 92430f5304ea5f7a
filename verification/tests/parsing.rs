use tora_backend::discord::{
    create_message_url, create_new_followup_url, delete_message_url, edit_message_url,
};
use tora_backend::numparse::{parse_i32_or_zero, parse_u64_or_zero};
use tora_backend::strutil::{str_eq, string_vec_contains};

#[test]
fn parse_u64_reads_plain_digits() {
    assert_eq!(parse_u64_or_zero("123"), 123);
    assert_eq!(parse_u64_or_zero("0"), 0);
    assert_eq!(parse_u64_or_zero("007"), 7);
}

#[test]
fn parse_u64_accepts_leading_plus() {
    assert_eq!(parse_u64_or_zero("+42"), 42);
}

#[test]
fn parse_u64_rejects_empty_and_stray_text() {
    assert_eq!(parse_u64_or_zero(""), 0);
    assert_eq!(parse_u64_or_zero("+"), 0);
    assert_eq!(parse_u64_or_zero("12a"), 0);
    assert_eq!(parse_u64_or_zero(" 12"), 0);
    assert_eq!(parse_u64_or_zero("-1"), 0);
}

#[test]
fn parse_u64_handles_the_type_boundary() {
    assert_eq!(parse_u64_or_zero("18446744073709551615"), u64::MAX);
    assert_eq!(parse_u64_or_zero("18446744073709551616"), 0);
}

#[test]
fn parse_u64_matches_std_parse() {
    for s in ["", "0", "+99", "-3", "123456789012345678901", "42x", "18446744073709551615"] {
        assert_eq!(parse_u64_or_zero(s), s.parse::<u64>().unwrap_or_default());
    }
}

#[test]
fn parse_i32_reads_signed_numbers() {
    assert_eq!(parse_i32_or_zero("123"), 123);
    assert_eq!(parse_i32_or_zero("-123"), -123);
    assert_eq!(parse_i32_or_zero("+7"), 7);
}

#[test]
fn parse_i32_handles_the_type_boundaries() {
    assert_eq!(parse_i32_or_zero("2147483647"), i32::MAX);
    assert_eq!(parse_i32_or_zero("-2147483648"), i32::MIN);
    assert_eq!(parse_i32_or_zero("2147483648"), 0);
    assert_eq!(parse_i32_or_zero("-2147483649"), 0);
}

#[test]
fn parse_i32_matches_std_parse() {
    for s in ["", "-0", "+-1", "5 ", "-2147483648", "99999999999999999999"] {
        assert_eq!(parse_i32_or_zero(s), s.parse::<i32>().unwrap_or_default());
    }
}

#[test]
fn str_eq_compares_contents() {
    assert!(str_eq("", ""));
    assert!(str_eq("abc", "abc"));
    assert!(!str_eq("abc", "abd"));
    assert!(!str_eq("abc", "ab"));
    assert!(str_eq("日本語", "日本語"));
}

#[test]
fn string_vec_contains_finds_entries() {
    let v = vec!["alpha".to_string(), "beta".to_string()];
    assert!(string_vec_contains(&v, "alpha"));
    assert!(string_vec_contains(&v, "beta"));
    assert!(!string_vec_contains(&v, "gamma"));
    assert!(!string_vec_contains(&Vec::new(), "alpha"));
}

#[test]
fn followup_url_renders_the_application_id() {
    assert_eq!(
        create_new_followup_url(123, "tok-en"),
        "https://discord.com/api/webhooks/123/tok-en"
    );
    assert_eq!(
        create_new_followup_url(u64::MAX, "t"),
        format!("https://discord.com/api/webhooks/{}/t", u64::MAX)
    );
    assert_eq!(create_new_followup_url(0, ""), "https://discord.com/api/webhooks/0/");
}

#[test]
fn channel_endpoints_render_their_ids() {
    assert_eq!(
        create_message_url(700),
        "https://discord.com/api/v8/channels/700/messages"
    );
    assert_eq!(
        delete_message_url(700, 41),
        "https://discord.com/api/v8/channels/700/messages/41"
    );
    assert_eq!(
        edit_message_url(700, "orig"),
        "https://discord.com/api/v8/channels/700/messages/orig"
    );
}
