use rust_chat_server::library::server::client_management::client::Client;
use rust_chat_server::library::server::client_management::traits::TClientManager;
use rust_chat_server::library::server::client_management::ClientManager;
use rust_chat_server::library::server::{Server, ServerMessages};
use rust_chat_server::library::server::network_manager::listen_address;

const FIRST: &str = "67e55044-10b1-426f-9247-bb680e5fe0c8";
const SECOND: &str = "00000000-0000-0000-0000-000000000001";
const THIRD: &str = "ffffffff-0000-0000-0000-000000000000";

fn client(uuid: &str, name: &str) -> Client {
    Client::try_new(uuid.to_string(), name.to_string(), "127.0.0.1".to_string())
        .expect("a valid uuid")
}

fn uuids(manager: &ClientManager) -> Vec<u128> {
    manager.clients.iter().map(|c| c.uuid).collect()
}

#[test]
fn test_get_ref() {
    let mut server = Server::new();
    server.client_manager.add_client(client(THIRD, "carol"));
    server.client_manager.add_client(client(SECOND, "alice"));
    // A connected client is only reported; the manager is left as it is.
    server.handle_message(ServerMessages::ClientConnected(client(FIRST, "bob")));
    assert_eq!(uuids(&server.client_manager), vec![0xffffffff000000000000000000000000, 1]);
    // A disconnect passes through the manager's removal, which sorts.
    server.handle_message(ServerMessages::ClientDisconnected(1));
    assert_eq!(uuids(&server.client_manager), vec![1, 0xffffffff000000000000000000000000]);
}

#[test]
fn test_add_client() {
    let mut client_manager = ClientManager::new();
    client_manager.add_client(client(FIRST, "bob"));
    assert_eq!(client_manager.clients.len(), 1);
    assert_eq!(client_manager.clients[0].uuid, 0x67e5504410b1426f9247bb680e5fe0c8);
    assert_eq!(client_manager.clients[0].username, "bob");
}

#[test]
fn test_remove_client() {
    let mut client_manager = ClientManager::new();
    client_manager.add_client(client(THIRD, "carol"));
    client_manager.add_client(client(FIRST, "bob"));
    client_manager.add_client(client(SECOND, "alice"));
    client_manager.remove_client(0x67e5504410b1426f9247bb680e5fe0c8);
    // Removal sorts the clients by uuid and keeps all of them.
    assert_eq!(
        uuids(&client_manager),
        vec![1, 0x67e5504410b1426f9247bb680e5fe0c8, 0xffffffff000000000000000000000000]
    );
}

#[test]
fn test_remove_all_clients() {
    let mut client_manager = ClientManager::new();
    client_manager.add_client(client(THIRD, "carol"));
    client_manager.add_client(client(SECOND, "alice"));
    for uuid in [0xffffffff000000000000000000000000u128, 1] {
        client_manager.remove_client(uuid);
    }
    assert_eq!(client_manager.clients.len(), 2);
    assert_eq!(uuids(&client_manager), vec![1, 0xffffffff000000000000000000000000]);
}

#[test]
fn invalid_uuid_is_refused() {
    assert!(Client::try_new("not-a-uuid".to_string(), "x".to_string(), "y".to_string()).is_none());
}

#[test]
fn default_client_is_generic() {
    let a = Client::default();
    let b = Client::default();
    assert_eq!(a.username, "generic_client");
    assert_eq!(a.address, "127.0.0.1");
    assert_ne!(a.uuid, b.uuid);
}

#[test]
fn clients_compare_by_uuid() {
    let a = client(FIRST, "bob");
    let b = client(FIRST, "someone else");
    let c = client(SECOND, "bob");
    assert!(a == b);
    assert!(a != c);
}

#[test]
fn server_only_reports_connected_clients() {
    let mut server = Server::new();
    server.handle_message(ServerMessages::ClientConnected(client(THIRD, "carol")));
    server.handle_message(ServerMessages::ClientConnected(client(SECOND, "alice")));
    assert!(server.client_manager.clients.is_empty());
    server.handle_message(ServerMessages::ClientDisconnected(1));
    assert!(server.client_manager.clients.is_empty());
}

#[test]
fn listen_address_uses_all_interfaces() {
    assert_eq!(listen_address(&"5600".to_string()), "0.0.0.0:5600");
}

#[test]
fn removal_sort_is_stable() {
    let mut client_manager = ClientManager::new();
    client_manager.add_client(client(THIRD, "carol"));
    client_manager.add_client(client(SECOND, "first alice"));
    client_manager.add_client(client(SECOND, "second alice"));
    client_manager.remove_client(1);
    let names: Vec<&str> = client_manager.clients.iter().map(|c| c.username.as_str()).collect();
    assert_eq!(names, vec!["first alice", "second alice", "carol"]);
}

#[test]
fn clients_are_ordered_by_uuid() {
    let a = client(SECOND, "zed");
    let b = client(FIRST, "amy");
    let c = client(SECOND, "other");
    assert!(a < b);
    assert_eq!(a.partial_cmp(&c), Some(std::cmp::Ordering::Equal));
    assert!(a == c);
}

#[test]
fn default_client_has_a_version_4_uuid() {
    let c = Client::default();
    assert_eq!((c.uuid >> 76) & 0xf, 4);
    assert_eq!((c.uuid >> 62) & 0x3, 2);
    assert_eq!(c.username, "generic_client");
    assert_eq!(c.address, "127.0.0.1");
}
