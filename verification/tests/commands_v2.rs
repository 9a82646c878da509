use rust_chat_server::params::Params;
use rust_chat_server::server_v2::commands_v2::Commands;
use rust_chat_server::wire::CommandKind;

#[test]
fn commands_v2_test_creation_from_string() {
    let command_result =
        Commands::from_string("!connect: name:bop host:127.0.0.1 uuid:123456-1234-1234-123456");
    assert!(command_result.is_ok());
    let command = command_result.unwrap_or(Commands::Error(None));
    assert_eq!(command.kind(), CommandKind::Connect);
}

#[test]
fn commands_v2_test_to_string() {
    let mut a = Params::new();
    a.insert("name".to_string(), "michael".to_string());
    a.insert("host".to_string(), "127.0.0.1".to_string());
    a.insert("uuid".to_string(), "123456-1234-1234-123456".to_string());

    let command = Commands::Connect(Some(a));

    println!("{:?}", command.to_String());
    assert_eq!(
        command.to_String(),
        "!connect: name:michael host:127.0.0.1 uuid:123456-1234-1234-123456"
    );
}

#[test]
fn unread_words_are_not_implemented() {
    match Commands::from_string("!request:") {
        Err(e) => assert_eq!(e, "NOT IMPLEMENTED"),
        Ok(_) => panic!("a request is not read by this version"),
    }
}

#[test]
fn request_is_written_as_error() {
    assert_eq!(Commands::Request(None).to_String(), "!error:");
    assert_eq!(Commands::Disconnect(None).to_String(), "!disconnect:");
}
