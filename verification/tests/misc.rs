use tora_backend::config::{parse_log_level, Configuration, LogLevel};
use tora_backend::dialog::{sanitize_dialog_text, validate_dialog, DialogInfo};
use tora_backend::discord::{Message, MessageReference};
use tora_backend::errors::ServerError;
use tora_backend::files::check_filename_free;
use tora_backend::records::{validate_player_record, PlayerRecordPayload};
use tora_backend::roll::{
    ensure_character_id, ensure_roll_id, find_character, find_roll_by_id,
    join_rolls_with_characters, GetRollResult, MalCharacter, UserRoll,
};

fn dialog(character: &str, background: &str, text: &str) -> DialogInfo {
    DialogInfo {
        id: None,
        background: background.to_string(),
        character: character.to_string(),
        text: text.to_string(),
    }
}

fn character(id: i32, name: &str) -> MalCharacter {
    MalCharacter {
        character_id: id,
        url: String::new(),
        name: name.to_string(),
        name_kanji: String::new(),
        image_url: String::new(),
        created_at: String::new(),
        about: String::new(),
        id: format!("doc-{}", id),
    }
}

fn roll(roll_id: i32, character_id: i32) -> UserRoll {
    UserRoll {
        roll_id,
        user_id: "u".to_string(),
        mal_character_id: character_id,
        created_at: String::new(),
        id: "r".to_string(),
    }
}

#[test]
fn server_errors_carry_their_message() {
    let e = ServerError::with_message("something broke");
    assert_eq!(e.error_message, "something broke");
}

#[test]
fn dialog_requests_need_known_assets_and_text() {
    let characters = vec!["hiro".to_string()];
    let backgrounds = vec!["bar".to_string()];
    assert!(validate_dialog(&dialog("hiro", "bar", "hello"), &characters, &backgrounds).is_ok());
    let e = validate_dialog(&dialog("nobody", "bar", "hello"), &characters, &backgrounds)
        .unwrap_err();
    assert_eq!(
        e.error_message,
        "The specified character/background doesn't exist, or the text is empty."
    );
    assert!(validate_dialog(&dialog("hiro", "space", "hello"), &characters, &backgrounds).is_err());
    assert!(validate_dialog(&dialog("hiro", "bar", ""), &characters, &backgrounds).is_err());
}

#[test]
fn dialog_text_is_scrubbed_of_markup() {
    let out: String = sanitize_dialog_text("pay ${100} `now`").into_iter().collect();
    assert_eq!(out, "pay 100 now");
    let unchanged: String = sanitize_dialog_text("plain text").into_iter().collect();
    assert_eq!(unchanged, "plain text");
}

#[test]
fn a_taken_filename_is_refused() {
    let existing = vec!["a.png".to_string()];
    assert!(check_filename_free(&existing, "b.png").is_ok());
    let e = check_filename_free(&existing, "a.png").unwrap_err();
    assert_eq!(e.error_message, "A file with exactly the same name already exists.");
}

#[test]
fn score_records_need_a_player_name() {
    let mut p = PlayerRecordPayload {
        id: None,
        player_name: "ada".to_string(),
        score: 10,
        stage: 1,
    };
    assert!(validate_player_record(&p).is_ok());
    p.player_name = String::new();
    let e = validate_player_record(&p).unwrap_err();
    assert_eq!(e.error_message, "The player name cannot be empty!");
}

#[test]
fn rolls_join_against_the_character_table() {
    let characters = vec![character(7, "seven"), character(9, "nine"), character(7, "shadow")];
    let results = join_rolls_with_characters(vec![roll(1, 9), roll(2, 7), roll(3, 8)], &characters);
    assert_eq!(results.len(), 3);
    assert_eq!(results[0].mal_character.name, "nine");
    // The first table row with the id wins.
    assert_eq!(results[1].mal_character.name, "seven");
    // A missing character falls back to the empty row.
    assert_eq!(results[2].mal_character.name, "");
    assert_eq!(results[2].mal_character.character_id, 0);
}

#[test]
fn a_roll_is_found_by_its_id() {
    let characters = vec![character(7, "seven")];
    let results = join_rolls_with_characters(vec![roll(1, 7), roll(2, 7)], &characters);
    assert_eq!(find_roll_by_id(&results, 2), Some(1));
    assert_eq!(find_roll_by_id(&results, 5), None);
    let empty: Vec<GetRollResult> = Vec::new();
    assert_eq!(find_roll_by_id(&empty, 1), None);
}

#[test]
fn stored_rolls_get_an_id_only_when_they_lack_one() {
    let mut r = roll(1, 7);
    r.id = String::new();
    ensure_roll_id(&mut r);
    assert_eq!(r.id.len(), 36);
    let minted = r.id.clone();
    ensure_roll_id(&mut r);
    assert_eq!(r.id, minted);
}

#[test]
fn stored_characters_get_an_id_only_when_they_lack_one() {
    let mut c = character(7, "seven");
    c.id = String::new();
    ensure_character_id(&mut c);
    assert_eq!(c.id.len(), 36);
    assert!(uuid::Uuid::parse_str(&c.id).is_ok());
    let minted = c.id.clone();
    ensure_character_id(&mut c);
    assert_eq!(c.id, minted);
}

#[test]
fn an_absent_character_lookup_is_the_empty_row() {
    let c = find_character(&Vec::new(), 5);
    assert_eq!(c.character_id, 0);
    assert_eq!(c.name, "");
}

#[test]
fn log_levels_parse_with_a_debug_fallback() {
    assert!(matches!(parse_log_level("DEBUG"), LogLevel::Debug));
    assert!(matches!(parse_log_level("INFO"), LogLevel::Info));
    assert!(matches!(parse_log_level("WARN"), LogLevel::Warn));
    assert!(matches!(parse_log_level("ERROR"), LogLevel::Error));
    assert!(matches!(parse_log_level("TRACE"), LogLevel::Trace));
    assert!(matches!(parse_log_level("verbose"), LogLevel::Debug));
}

#[test]
fn configurations_carry_their_fields() {
    let c = Configuration {
        database_url: "postgres://localhost/db".to_string(),
        jwt_secret: "test-signing-secret".to_string(),
        bot_user_name: "bot".to_string(),
        bot_user_pass: "pass".to_string(),
        web_driver_address: "http://localhost:9515".to_string(),
        server_bind_point: "0.0.0.0:8080".to_string(),
        server_address: "http://localhost:8080".to_string(),
        dialog_quality: 75,
        log_level: "DEBUG".to_string(),
        cosmos_db_primary_key: "test-primary-key".to_string(),
        cosmos_db_database_name: "botdb".to_string(),
        cosmos_db_account: "account".to_string(),
        swc_publication_endpoints: vec!["http://localhost/hook".to_string()],
        swc_check_interval: 3,
    };
    assert_eq!(c.dialog_quality, 75);
    assert_eq!(c.swc_publication_endpoints.len(), 1);
}

#[test]
fn empty_discord_messages_start_blank() {
    let m = Message::new();
    assert_eq!(m.id, "");
    assert_eq!(m.message_reference.channel_id, "");
    let r = MessageReference::new();
    assert_eq!(r.guild_id, "");
    let d = Message::default();
    assert_eq!(d.id, "");
}
