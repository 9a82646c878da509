use rust_chat_server::protocols::commands::{Commands, OutboundCommands};
use rust_chat_server::server::utility::{
    extract_fields, match_command, match_outbound_command, tokenize, try_tokenize,
};

#[test]
fn command_words_are_matched() {
    assert_eq!(match_command(&"!info:".to_string()), Commands::Info);
    assert_eq!(match_command(&"!clientInfo:".to_string()), Commands::ClientInfo);
    assert_eq!(match_command(&"!client:".to_string()), Commands::Unknown);
    assert_eq!(match_outbound_command(&"!client:".to_string()), OutboundCommands::Client);
    assert_eq!(match_outbound_command(&"!clientRemove:".to_string()), OutboundCommands::ClientRemove);
    assert_eq!(match_outbound_command(&"!info:".to_string()), OutboundCommands::Unknown);
}

#[test]
fn tokenize_stores_command_and_fields() {
    let p = tokenize("!connect: name:bob uuid:42");
    assert_eq!(p.get("command").unwrap(), "!connect:");
    assert_eq!(p.get("name").unwrap(), "bob");
    assert_eq!(p.get("uuid").unwrap(), "42");
    assert_eq!(p.len(), 3);
}

#[test]
fn unknown_command_word_is_a_field() {
    let p = try_tokenize("!request: a:b").unwrap();
    assert_eq!(p.get("!request").unwrap(), "");
    assert_eq!(p.get("a").unwrap(), "b");
}

#[test]
fn extract_fields_collects_uuid_and_username() {
    let data = vec![
        "!client:".to_string(),
        "uuid:42".to_string(),
        "username:bob".to_string(),
        "other:x".to_string(),
    ];
    let (uuid, username) = extract_fields(&data);
    assert_eq!(uuid, "42");
    assert_eq!(username, "bob");
}

#[test]
fn extract_fields_takes_the_second_piece() {
    let data = vec!["x:uuid:5".to_string(), "username:a".to_string(), "username:b".to_string()];
    let (uuid, username) = extract_fields(&data);
    assert_eq!(uuid, "uuid");
    assert_eq!(username, "ab");
}
