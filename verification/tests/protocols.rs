use rust_chat_server::client_management::client_profile::{Client, ClientRegistry};
use rust_chat_server::protocols::commands::client_update::format_client_data;
use rust_chat_server::protocols::commands::info::get_server_info;
use rust_chat_server::protocols::commands::{
    Action, Commands, InboundReturns, OutboundCommands, OutboundReturns, ReadOutcome, ReadStep,
};

fn texts(actions: &[Action]) -> Vec<String> {
    actions
        .iter()
        .map(|a| match a {
            Action::Transmit(s) => format!("transmit {}", s),
            Action::Queue(s) => format!("queue {}", s),
            Action::AwaitSuccess(s) => format!("await {}", s),
        })
        .collect()
}

fn fields(v: &[&str]) -> Vec<String> {
    v.iter().map(|s| s.to_string()).collect()
}

#[test]
fn server_info_is_name_and_owner() {
    assert_eq!(get_server_info(), "Server-01 mickyb18");
}

#[test]
fn client_line_labels_name_uuid_and_host() {
    let c = Client { uuid: "u1".to_string(), username: "bob".to_string(), address: "h".to_string() };
    assert_eq!(format_client_data(&"u1".to_string(), &c), "!client: name:\"bob\" uuid:u1 host:\"h\"");
}

#[test]
fn connect_registers_and_relays() {
    let mut clients = ClientRegistry::new();
    let actions = Commands::Connect.execute(
        &fields(&["!connect:", "bob", "u1"]),
        &"10.0.0.1".to_string(),
        &mut clients,
    );
    assert_eq!(
        texts(&actions),
        vec!["queue !client: u1 address:10.0.0.1 bob", "transmit !success:"]
    );
    assert_eq!(clients.get("u1").unwrap().username, "bob");
}

#[test]
fn client_update_lists_every_client() {
    let mut clients = ClientRegistry::new();
    Commands::Connect.execute(&fields(&["!connect:", "bob", "u1"]), &"h1".to_string(), &mut clients);
    Commands::Connect.execute(&fields(&["!connect:", "eve", "u2"]), &"h2".to_string(), &mut clients);
    let actions = Commands::ClientUpdate.execute(&fields(&[]), &"x".to_string(), &mut clients);
    assert_eq!(
        texts(&actions),
        vec![
            "transmit !client: name:\"bob\" uuid:u1 host:\"h1\"",
            "await !client: name:\"bob\" uuid:u1 host:\"h1\"",
            "transmit !client: name:\"eve\" uuid:u2 host:\"h2\"",
            "await !client: name:\"eve\" uuid:u2 host:\"h2\"",
            "transmit !success:",
            "await !success:",
        ]
    );
}

#[test]
fn disconnect_unregisters_and_relays() {
    let mut clients = ClientRegistry::new();
    Commands::Connect.execute(&fields(&["!connect:", "bob", "u1"]), &"h1".to_string(), &mut clients);
    let actions =
        Commands::Disconnect.execute(&fields(&["!disconnect:", "u1"]), &"h1".to_string(), &mut clients);
    assert_eq!(texts(&actions), vec!["queue !clientRemove: u1", "transmit !success:"]);
    assert_eq!(clients.len(), 0);
}

#[test]
fn client_info_answers_for_known_and_unknown() {
    let mut clients = ClientRegistry::new();
    Commands::Connect.execute(&fields(&["!connect:", "bob", "u1"]), &"h1".to_string(), &mut clients);
    let known = Commands::ClientInfo.execute(&fields(&["!clientInfo:", "u1"]), &"x".to_string(), &mut clients);
    assert_eq!(texts(&known), vec!["transmit !success: uuid:u1 host:h1 username:bob"]);
    let unknown = Commands::ClientInfo.execute(&fields(&["!clientInfo:", "u9"]), &"x".to_string(), &mut clients);
    assert_eq!(texts(&unknown), vec!["transmit client not online"]);
}

#[test]
fn info_and_unknown_commands() {
    let mut clients = ClientRegistry::new();
    let info = Commands::Info.execute(&fields(&[]), &"x".to_string(), &mut clients);
    assert_eq!(texts(&info), vec!["transmit !success: Server-01 mickyb18"]);
    assert!(Commands::Unknown.execute(&fields(&[]), &"x".to_string(), &mut clients).is_empty());
}

#[test]
fn returns_and_outbound_commands() {
    assert_eq!(OutboundReturns::Success.execute(&String::new()).unwrap(), "!success:");
    assert_eq!(OutboundReturns::Success.execute(&"x y".to_string()).unwrap(), "!success: x y");
    assert!(OutboundReturns::Error.execute(&"x".to_string()).is_none());
    assert_eq!(InboundReturns::Success.execute(ReadOutcome::WouldBlock), ReadStep::Retransmit);
    assert_eq!(InboundReturns::Success.execute(ReadOutcome::Received), ReadStep::Done);
    assert_eq!(InboundReturns::Success.execute(ReadOutcome::Failed), ReadStep::Fail);
    assert_eq!(InboundReturns::Error.execute(ReadOutcome::Failed), ReadStep::Done);
    assert_eq!(texts(&OutboundCommands::Client.execute(&"m".to_string())), vec!["transmit m", "await m"]);
    assert!(OutboundCommands::Unknown.execute(&"m".to_string()).is_empty());
}
