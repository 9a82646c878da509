use rust_chat_server::params::Params;
use rust_chat_server::status_service::{
    classify, get_requested_users, handle_status, identify_requested_username, users_response,
    Request,
};

#[test]
fn requests_are_classified_by_prefix() {
    assert_eq!(classify("STATUS:online UUID:1 UNAME:bob"), Request::Status);
    assert_eq!(classify("CLIENT:request_clients UNAME:bob"), Request::Clients);
    assert_eq!(classify("CLIENT:request_ip"), Request::Ip);
    assert_eq!(classify("hello"), Request::Other);
}

#[test]
fn announcement_registers_uuid_and_name() {
    let mut clients = Params::new();
    handle_status("STATUS:online UUID:123 UNAME:bob\u{0}\u{0}", &mut clients);
    assert_eq!(clients.get("123").unwrap(), "bob\u{0}\u{0}");
    handle_status("STATUS:online\tUUID:7 other UNAME:eve", &mut clients);
    assert_eq!(clients.get("7").unwrap(), "eve");
    assert_eq!(clients.len(), 2);
}

#[test]
fn requested_username_is_the_whole_word() {
    assert_eq!(identify_requested_username("CLIENT:request_clients UNAME:bob x"), "UNAME:bob");
    assert_eq!(identify_requested_username("CLIENT:request_clients"), "");
}

#[test]
fn requested_users_are_listed() {
    let mut clients = Params::new();
    clients.insert("1".to_string(), "bob".to_string());
    clients.insert("2".to_string(), "eve".to_string());
    clients.insert("3".to_string(), "bob".to_string());
    let users = get_requested_users("bob", &clients);
    assert_eq!(users_response(&users), "uuid:1username:bob\nuuid:3username:bob\n");
    let none = get_requested_users("UNAME:bob", &clients);
    assert_eq!(users_response(&none), "");
}
