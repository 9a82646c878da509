use rust_chat_server::params::Params;
use rust_chat_server::server::commands::Commands;
use rust_chat_server::wire::CommandKind;

#[test]
fn mod_test_creation_from_string() {
    let command_result =
        Commands::from("!connect: name:bop host:127.0.0.1 uuid:123456-1234-1234-123456");
    assert_eq!(command_result.kind(), CommandKind::Connect);
    let params = command_result.params().as_ref().expect("parameters");
    assert_eq!(params.get("name").map(|s| s.as_str()), Some("bop"));
    assert_eq!(params.get("host").map(|s| s.as_str()), Some("127"));
    assert_eq!(params.get("uuid").map(|s| s.as_str()), Some("123456-1234-1234-123456"));
    assert_eq!(params.len(), 3);
}

#[test]
fn mod_test_to_string() {
    let mut a = Params::new();
    a.insert("name".to_string(), "michael".to_string());
    a.insert("host".to_string(), "127.0.0.1".to_string());
    a.insert("uuid".to_string(), "123456-1234-1234-123456".to_string());

    let command = Commands::Connect(Some(a));

    println!("{:?}", command.to_string());
    assert_eq!(
        command.to_string(),
        "!connect: name:michael host:127.0.0.1 uuid:123456-1234-1234-123456"
    );
}

#[test]
fn success_and_client_remove_are_written_as_error() {
    let mut a = Params::new();
    a.insert("uuid".to_string(), "1".to_string());
    assert_eq!(Commands::Success(Some(a)).to_string(), "!error:");
    assert_eq!(Commands::ClientRemove(None).to_string(), "!error:");
}

#[test]
fn message_without_parameters_has_none() {
    let c = Commands::from("!info:");
    assert_eq!(c.kind(), CommandKind::Info);
    assert!(c.params().is_none());
}

#[test]
fn message_without_token_is_refused() {
    assert!(Commands::try_from_str("").is_none());
    assert!(Commands::try_from_str("hello world").is_none());
}
