use rust_chat_server::server::ui::control_panel::panel_lines;
use rust_chat_server::text::decimal_text;
use rust_chat_server::client_api::{info_request, read_info_reply, read_info_reply_buffer};
use rust_chat_server::commands::Commands;
use rust_chat_server::params::Params;
use rust_chat_server::server::client::client_profile::{Client as ProfileClient, ProfileAction};
use rust_chat_server::server::client::client_v3::{
    relay_answered, relay_message, Client as V3Client, ClientAction, RelayNext, RELAY_ATTEMPTS,
};
use rust_chat_server::server::server_profile::{LoopStep, Server as ProfileServer};
use rust_chat_server::server::server_v3::{Server, ServerAction, ServerMessages, ServerState};
use rust_chat_server::server_v2::client_v2::ClientV2;
use rust_chat_server::server_v2::Serverv2;
use rust_chat_server::wire::CommandKind;

fn params(entries: &[(&str, &str)]) -> Params {
    let mut p = Params::new();
    for (k, v) in entries {
        p.insert(k.to_string(), v.to_string());
    }
    p
}

fn connect(uuid: &str, name: &str, host: &str) -> Commands {
    Commands::Connect(Some(params(&[("uuid", uuid), ("name", name), ("host", host)])))
}

fn replies(actions: &[ServerAction]) -> Vec<String> {
    actions
        .iter()
        .map(|a| match a {
            ServerAction::Reply(s) => s.clone(),
            ServerAction::Notify(u, c) => format!("{} <- {}", u, c.to_string()),
        })
        .collect()
}

#[test]
fn v3_server_starts_stopped_and_answers_info() {
    let mut server = Server::new("Server-01", "0.0.0.0:6000", "owner");
    assert_eq!(server.state, ServerState::stopped);
    assert_eq!(Server::greeting(), "!request:");
    let r = server.handle_connection_request(Some(&Commands::Info(None)));
    assert_eq!(replies(&r), vec!["!info: name:Server-01 owner:owner"]);
    assert_eq!(server.o2s_rqst, 1);
    server.start();
    assert_eq!(server.state, ServerState::started);
}

#[test]
fn v3_server_registers_and_forgets_clients() {
    let mut server = Server::new("s", "a", "o");
    let r = server.handle_connection_request(Some(&connect("u1", "bob", "h1")));
    assert!(r.is_empty());
    assert_eq!(server.client_count(), 1);
    let info = server.handle_message(&ServerMessages::RequestInfo("u1".to_string()));
    assert_eq!(replies(&info), vec!["!success: uuid:u1 name:bob host:h1"]);
    let none = server.handle_message(&ServerMessages::RequestInfo("u2".to_string()));
    assert_eq!(replies(&none), vec!["!success:"]);
    server.handle_message(&ServerMessages::Disconnect("u1".to_string()));
    assert_eq!(server.client_count(), 0);
    assert_eq!(server.c2s_msgs, 3);
}

#[test]
fn v3_server_shutdown_disconnects_everyone() {
    let mut server = Server::new("s", "a", "o");
    server.handle_connection_request(Some(&connect("u1", "bob", "h1")));
    server.handle_connection_request(Some(&connect("u2", "eve", "h2")));
    let r = server.handle_message(&ServerMessages::Shutdown);
    assert_eq!(replies(&r), vec!["u1 <- !disconnect:", "u2 <- !disconnect:"]);
    assert_eq!(server.state, ServerState::stopped);
    assert_eq!(server.s2s_msgs, 1);
}

#[test]
fn v3_server_answers_other_requests_with_error() {
    let mut server = Server::new("s", "a", "o");
    let r = server.handle_connection_request(Some(&Commands::Request(None)));
    assert_eq!(replies(&r), vec!["!error:"]);
    assert!(server.handle_connection_request(None).is_empty());
    assert_eq!(server.o2s_rqst, 0);
}

#[test]
fn v3_client_handles_reads() {
    let client = V3Client::new("u1", "bob", "h1");
    let r = client.handle_read(Some(&Commands::ClientUpdate(None)));
    assert!(matches!(&r[0], ClientAction::Send(s) if s == "!success:"));
    assert!(matches!(&r[1], ClientAction::ToServer(ServerMessages::RequestUpdate)));
    let r = client.handle_read(Some(&Commands::Disconnect(None)));
    assert!(matches!(&r[0], ClientAction::ToServer(ServerMessages::Disconnect(u)) if u == "u1"));
    assert!(matches!(&r[1], ClientAction::Shutdown));
    let r = client.handle_read(None);
    assert!(matches!(&r[0], ClientAction::Send(s) if s == "!error:"));
}

#[test]
fn v3_client_relays_with_retries() {
    let c = Commands::Client(Some(params(&[("uuid", "u9")])));
    assert_eq!(relay_message(&c).unwrap(), "!client: uuid:u9");
    assert!(relay_message(&Commands::Client(None)).is_none());
    let ok = Commands::Success(None);
    let bad = Commands::Error(None);
    assert_eq!(relay_answered(RELAY_ATTEMPTS, Some(&ok)), RelayNext::Delivered);
    assert_eq!(relay_answered(RELAY_ATTEMPTS, Some(&bad)), RelayNext::Resend(2));
    assert_eq!(relay_answered(1, None), RelayNext::GiveUp);
}

#[test]
fn profile_client_answers_info_and_disconnects() {
    let mut client = ProfileClient::new("u1", "bob", "h1");
    let r = client.handle_read(&Commands::Info(None), &"srv".to_string(), &"me".to_string());
    assert!(matches!(&r[0], ProfileAction::Transmit(s) if s == "!success: name:srv owner:me"));
    let r = client.handle_read(&Commands::Disconnect(None), &"srv".to_string(), &"me".to_string());
    assert!(!client.connected);
    assert!(matches!(&r[0], ProfileAction::Unregister(u) if u == "u1"));
    assert!(matches!(&r[2], ProfileAction::ToAllClients(u, c) if u == "u1" && c.to_string() == "!error:"));
}

#[test]
fn profile_client_handles_channel_commands() {
    let client = ProfileClient::new("u1", "bob", "h1");
    let r = client.handle_channel_command(&Commands::ClientInfo(Some(params(&[("uuid", "u2")]))));
    assert!(matches!(&r[0], ProfileAction::ToClient(u, c)
        if u == "u2" && c.to_string() == "!success: uuid:u1 name:bob host:h1"));
    let r = client.handle_channel_command(&Commands::ClientRemove(Some(params(&[("uuid", "u3")]))));
    assert!(matches!(&r[0], ProfileAction::Transmit(s) if s == "!client: uuid:u3"));
    assert!(matches!(&r[1], ProfileAction::ConfirmSuccess));
    assert!(client.handle_channel_command(&Commands::Disconnect(None)).is_empty());
    assert!(client.confirm_success(Some(&Commands::Success(None))).is_none());
    assert_eq!(client.confirm_success(None).unwrap(), "!error:");
    assert_eq!(client.error_message(&"oops".to_string()), "!error: oops");
}

#[test]
fn profile_server_loop_decisions() {
    let mut server = ProfileServer::new("Server-01", "0.0.0.0:6000", "author");
    assert!(server.handle_connection_request(&connect("u1", "bob", "h1")).is_empty());
    let info = server.handle_connection_request(&Commands::Info(None));
    assert_eq!(info, vec!["!info: name:Server-01 owner:author".to_string()]);
    match server.handle_message(&ServerMessages::RequestUpdate) {
        LoopStep::Continue(lines) => {
            assert_eq!(lines, vec!["!client: username:bob uuid:u1 host:\"h1\"".to_string()])
        },
        LoopStep::Stop => panic!("an update does not stop the server"),
    }
    assert!(matches!(server.handle_message(&ServerMessages::Shutdown), LoopStep::Stop));
    let all = server.update_all_clients(&Commands::Success(None));
    assert_eq!(replies(&all), vec!["u1 <- !success:"]);
    assert_eq!(server.get_info().kind(), CommandKind::Info);
}

#[test]
fn v2_server_refuses_a_known_uuid() {
    let mut server = Serverv2::new("s".to_string(), "h".to_string(), "o".to_string());
    let c = ClientV2::new(&"u1".to_string(), &"bob".to_string(), &"h1".to_string());
    assert!(server.add_client(&c).is_ok());
    assert_eq!(server.add_client(&c), Err("!exists:"));
    assert_eq!(server.connected_clients.len(), 1);
}

#[test]
fn client_answers_greeting_with_info_request() {
    assert_eq!(info_request(&Commands::Request(None)).unwrap(), "!info:");
    assert!(info_request(&Commands::Info(None)).is_none());
}

#[test]
fn v3_server_start_stop_and_one_tick() {
    let mut server = Server::new("test server", "0.0.0.0:6000", "michael");
    server.start();
    assert_eq!(server.state, ServerState::started);
    server.stop();
    assert_eq!(server.state, ServerState::stopping);
    // The tick handles the `Shutdown` that `stop` queued.
    let r = server.handle_message(&ServerMessages::Shutdown);
    assert!(r.is_empty());
    assert_eq!(server.state, ServerState::stopped);
    assert_eq!(server.s2s_msgs, 1);
    assert_eq!(server.c2s_msgs, 0);
    assert_eq!(server.o2s_rqst, 0);
    assert_eq!(server.get_name(), "test server");
}

#[test]
fn info_reply_keeps_the_owner_address_whole() {
    let reply = read_info_reply("!info: name:Server-01 owner:noreply@email.com").unwrap();
    assert_eq!(reply.kind(), CommandKind::Info);
    let params = reply.params().as_ref().unwrap();
    assert_eq!(params.get("name").unwrap(), "Server-01");
    assert_eq!(params.get("owner").unwrap(), "noreply@email.com");
    assert_eq!(params.len(), 2);
    assert!(read_info_reply("").is_none());
}

#[test]
fn v3_tick_messages_count_and_stop() {
    let mut server = Server::new("test server", "0.0.0.0:6000", "michael");
    server.handle_connection_request(Some(&connect("u1", "bob", "h1")));
    server.start();
    server.stop();
    let msgs = vec![
        ServerMessages::RequestInfo("u1".to_string()),
        ServerMessages::Disconnect("u1".to_string()),
        ServerMessages::RequestUpdate,
        ServerMessages::Shutdown,
    ];
    let r = server.handle_messages(&msgs);
    assert_eq!(r.len(), 4);
    assert_eq!(
        replies(&r[0]),
        vec!["!success: uuid:u1 name:bob host:h1".to_string()]
    );
    assert!(r[1].is_empty() && r[2].is_empty() && r[3].is_empty());
    assert_eq!(server.c2s_msgs, 3);
    assert_eq!(server.s2s_msgs, 1);
    assert_eq!(server.o2s_rqst, 1);
    assert_eq!(server.client_count(), 0);
    assert_eq!(server.state, ServerState::stopped);
}

#[test]
fn v3_tick_stops_before_an_update_it_cannot_answer() {
    let mut server = Server::new("s", "a", "o");
    server.handle_connection_request(Some(&connect("u1", "bob", "h1")));
    let msgs = vec![ServerMessages::RequestInfo("zz".to_string()), ServerMessages::RequestUpdate];
    let r = server.handle_messages(&msgs);
    assert_eq!(r.len(), 1);
    assert_eq!(replies(&r[0]), vec!["!success:".to_string()]);
    assert_eq!(server.c2s_msgs, 1);
    assert_eq!(server.client_count(), 1);
}

#[test]
fn control_panel_lines_show_details_and_metrics() {
    let mut server = Server::new("Server-01", "0.0.0.0:6000", "noreply@email.com");
    server.handle_message(&ServerMessages::Shutdown);
    server.c2s_msgs = 120;
    assert_eq!(
        panel_lines(&server),
        vec![
            "  ═════╡ Server ╞═════  ",
            "Server name: Server-01",
            "Server host: 0.0.0.0:6000",
            "Server owner: noreply@email.com",
            "  ═════╡ metrics ╞═════  ",
            "Server o2s_rqst: 0",
            "Server c2s_msgs: 120",
            "Server s2s_msgs: 1",
            "Server s2c_msgs: 0",
        ]
    );
}

#[test]
fn decimal_text_writes_numerals() {
    assert_eq!(decimal_text(0), "0");
    assert_eq!(decimal_text(9), "9");
    assert_eq!(decimal_text(10), "10");
    assert_eq!(decimal_text(4096), "4096");
    assert_eq!(decimal_text(usize::MAX), usize::MAX.to_string());
}

#[test]
fn info_reply_is_read_from_the_buffer() {
    let mut buffer = [0u8; 1024];
    let text = b"!info: name:Server-01 owner:noreply@email.com";
    buffer[..text.len()].copy_from_slice(text);
    let reply = read_info_reply_buffer(&buffer).unwrap();
    assert_eq!(reply.params().as_ref().unwrap().get("owner").unwrap(), "noreply@email.com");
}
