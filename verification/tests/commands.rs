use rust_chat_server::commands::Commands;
use rust_chat_server::params::Params;
use rust_chat_server::wire::CommandKind;

fn params(entries: &[(&str, &str)]) -> Params {
    let mut p = Params::new();
    for (k, v) in entries {
        p.insert(k.to_string(), v.to_string());
    }
    p
}

#[test]
fn connect_is_written_with_its_parameters() {
    let c = Commands::Connect(Some(params(&[("name", "bop"), ("uuid", "42")])));
    assert_eq!(c.to_string(), "!connect: name:bop uuid:42");
}

#[test]
fn client_remove_is_written_as_bare_error() {
    let c = Commands::ClientRemove(Some(params(&[("uuid", "42")])));
    assert_eq!(c.to_string(), "!error:");
}

#[test]
fn written_command_reads_back() {
    let c = Commands::Client(Some(params(&[("name", "bop"), ("uuid", "42")])));
    let text = c.to_string();
    let back = Commands::from(text.as_str());
    assert!(back == c);
    assert_eq!(back.to_string(), text);
}

#[test]
fn unknown_word_reads_as_error_with_parameters() {
    let c = Commands::from("!bogus: uuid:7");
    assert_eq!(c.kind(), CommandKind::Error);
    assert_eq!(c.params().as_ref().unwrap().get("uuid").unwrap(), "7");
}

#[test]
fn later_parameter_replaces_earlier() {
    let c = Commands::from("!client: uuid:1 uuid:2");
    let p = c.params().as_ref().unwrap();
    assert_eq!(p.len(), 1);
    assert_eq!(p.get("uuid").unwrap(), "2");
}

#[test]
fn equality_compares_parameters() {
    let a = Commands::Info(Some(params(&[("name", "x")])));
    let b = Commands::Info(Some(params(&[("name", "x")])));
    let c = Commands::Info(Some(params(&[("name", "y")])));
    let d = Commands::Success(Some(params(&[("name", "x")])));
    assert!(a == b && b == a);
    assert!(a != c);
    assert!(a != d);
    assert!(Commands::Success(None) == Commands::Success(None));
    assert!(Commands::Success(None) != Commands::Success(Some(params(&[("a", "b")]))));
}

#[test]
fn empty_parameters_are_unequal_to_themselves() {
    let a = Commands::Request(Some(Params::new()));
    assert!(!(a == a.clone()));
}

#[test]
fn maps_sharing_no_key_are_unequal() {
    let a = Commands::Info(Some(params(&[("a", "1")])));
    let b = Commands::Info(Some(params(&[("b", "1")])));
    assert!(a != b);
}

#[test]
fn buffer_is_parsed_and_wiped() {
    let mut buffer = [0u8; 1024];
    let text = b"!info: name:server";
    buffer[..text.len()].copy_from_slice(text);
    let c = Commands::from_buffer(&mut buffer);
    assert_eq!(c.kind(), CommandKind::Info);
    assert_eq!(c.params().as_ref().unwrap().get("name").unwrap(), "server");
    assert!(buffer.iter().all(|b| *b == 0));
}

#[test]
fn empty_buffer_is_refused_and_wiped() {
    let mut buffer = [7u8; 1024];
    assert!(Commands::try_from_buffer(&mut buffer).is_none());
    assert!(buffer.iter().all(|b| *b == 0));
}
