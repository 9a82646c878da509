use rust_chat_server::library::commands::{CommandParseError, Commands};
use rust_chat_server::params::Params;
use rust_chat_server::wire::CommandKind;

fn params(entries: &[(&str, &str)]) -> Params {
    let mut p = Params::new();
    for (k, v) in entries {
        p.insert(k.to_string(), v.to_string());
    }
    p
}

#[test]
fn values_with_colons_are_quoted() {
    let c = Commands::Connect(Some(params(&[("host", "127.0.0.1:6000"), ("name", "bop")])));
    assert_eq!(c.to_string(), "!connect: host:\"127.0.0.1:6000\" name:bop");
}

#[test]
fn client_remove_word_lacks_its_colon() {
    let c = Commands::ClientRemove(Some(params(&[("uuid", "1")])));
    assert_eq!(c.to_string(), "!clientRemove uuid:1");
}

#[test]
fn heartbeat_reads_back_but_equals_nothing() {
    let c = Commands::from_str("!heartbeat:").unwrap();
    assert_eq!(c.kind(), CommandKind::HeartBeat);
    assert!(c != Commands::HeartBeat(None));
}

#[test]
fn wide_values_are_read() {
    let c = Commands::from_str("!connect: host:127.0.0.1 mail:a@b.c").unwrap();
    let p = c.params().as_ref().unwrap();
    assert_eq!(p.get("host").unwrap(), "127.0.0.1");
    assert_eq!(p.get("mail").unwrap(), "a@b.c");
}

#[test]
fn no_token_is_no_string() {
    assert_eq!(Commands::from_str("   ").unwrap_err(), CommandParseError::NoString);
    assert_eq!(Commands::from_string(String::new()).kind(), CommandKind::Error);
}

#[test]
fn unknown_word_drops_parameters() {
    let c = Commands::from_str("!bogus: uuid:1").unwrap();
    assert_eq!(c.kind(), CommandKind::Error);
    assert!(c.params().is_none());
}

#[test]
fn library_written_command_reads_back() {
    let c = Commands::HeartBeat(Some(params(&[("uuid", "9")])));
    let back = Commands::from_str(c.to_string().as_str()).unwrap();
    assert_eq!(back.kind(), CommandKind::HeartBeat);
    assert_eq!(back.params().as_ref().unwrap().get("uuid").unwrap(), "9");
}
