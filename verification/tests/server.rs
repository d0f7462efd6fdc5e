use redis_kv::command::Command;
use redis_kv::frame::RespFrame;
use redis_kv::server::Server;

fn bulk(s: &[u8]) -> RespFrame {
    RespFrame::Bulk(s.to_vec())
}

fn request(parts: &[&[u8]]) -> RespFrame {
    RespFrame::Array(parts.iter().map(|p| bulk(p)).collect())
}

fn is_simple(reply: &Option<RespFrame>, text: &str) -> bool {
    matches!(reply, Some(RespFrame::Simple(s)) if s == text)
}

fn is_error(reply: &Option<RespFrame>, text: &str) -> bool {
    matches!(reply, Some(RespFrame::Error(s)) if s == text)
}

fn is_bulk(reply: &Option<RespFrame>, data: &[u8]) -> bool {
    matches!(reply, Some(RespFrame::Bulk(b)) if b.as_slice() == data)
}

fn is_null(reply: &Option<RespFrame>) -> bool {
    matches!(reply, Some(RespFrame::Null))
}

#[test]
fn set_then_get_returns_value() {
    let mut s = Server::new();
    let r = s.handle_frame(request(&[b"set", b"Hello", b"World!"]));
    assert!(is_simple(&r, "SUCCESS"));
    let r = s.handle_frame(request(&[b"get", b"Hello"]));
    assert!(is_bulk(&r, b"World!"));
}

#[test]
fn get_of_missing_key_is_null() {
    let mut s = Server::new();
    let r = s.handle_frame(request(&[b"get", b"absent"]));
    assert!(is_null(&r));
}

#[test]
fn last_set_wins() {
    let mut s = Server::new();
    assert!(is_simple(&s.handle_frame(request(&[b"set", b"k", b"one"])), "SUCCESS"));
    assert!(is_simple(&s.handle_frame(request(&[b"set", b"k", b"two"])), "SUCCESS"));
    assert!(is_bulk(&s.handle_frame(request(&[b"get", b"k"])), b"two"));
}

#[test]
fn set_leaves_other_keys() {
    let mut s = Server::new();
    s.handle_frame(request(&[b"set", b"a", b"1"]));
    s.handle_frame(request(&[b"set", b"b", b"2"]));
    assert!(is_bulk(&s.handle_frame(request(&[b"get", b"a"])), b"1"));
    assert!(is_bulk(&s.handle_frame(request(&[b"get", b"b"])), b"2"));
}

#[test]
fn command_names_are_case_insensitive() {
    let mut s = Server::new();
    assert!(is_simple(&s.handle_frame(request(&[b"SET", b"k", b"v"])), "SUCCESS"));
    assert!(is_bulk(&s.handle_frame(request(&[b"GeT", b"k"])), b"v"));
}

#[test]
fn set_with_expiry_option_is_stored() {
    let mut s = Server::new();
    let r = s.handle_frame(request(&[b"set", b"k", b"v", b"EX", b"10"]));
    assert!(is_simple(&r, "SUCCESS"));
    assert_eq!(s.lookup("k"), Some(b"v".to_vec()));
}

#[test]
fn other_commands_are_unimplemented() {
    let mut s = Server::new();
    let r = s.handle_frame(request(&[b"publish", b"chan", b"msg"]));
    assert!(is_error(&r, "[FAIL] Method Unimplemented"));
    let r = s.handle_frame(request(&[b"subscribe", b"chan"]));
    assert!(is_error(&r, "[FAIL] Method Unimplemented"));
    let r = s.handle_frame(request(&[b"ping"]));
    assert!(is_error(&r, "[FAIL] Method Unimplemented"));
    assert_eq!(s.lookup("chan"), None);
}

#[test]
fn malformed_frames_get_no_reply() {
    let mut s = Server::new();
    assert!(s.handle_frame(bulk(b"get")).is_none());
    assert!(s.handle_frame(RespFrame::Simple("get".to_string())).is_none());
    assert!(s.handle_frame(RespFrame::Array(vec![])).is_none());
    assert!(s.handle_frame(request(&[b"get"])).is_none());
    assert!(s.handle_frame(request(&[b"get", b"k", b"extra"])).is_none());
    assert!(s.handle_frame(request(&[b"set", b"k"])).is_none());
    assert!(s.handle_frame(request(&[b"set", b"k", b"v", b"NX"])).is_none());
    assert!(s.handle_frame(request(&[b"get", &[0xff, 0xfe]])).is_none());
}

#[test]
fn malformed_set_stores_nothing() {
    let mut s = Server::new();
    assert!(s.handle_frame(request(&[b"set", b"k", b"v", b"NX"])).is_none());
    assert_eq!(s.lookup("k"), None);
}

#[test]
fn simple_string_arguments_are_accepted() {
    let mut s = Server::new();
    let frame = RespFrame::Array(vec![
        RespFrame::Simple("set".to_string()),
        RespFrame::Simple("k".to_string()),
        RespFrame::Simple("v".to_string()),
    ]);
    assert!(is_simple(&s.handle_frame(frame), "SUCCESS"));
    assert_eq!(s.lookup("k"), Some(b"v".to_vec()));
}

#[test]
fn value_set_by_one_client_is_read_by_a_later_one() {
    // one server serves every connection: `set mykey myvalue` on one
    // connection, then `get mykey` on a later one
    let mut server = Server::new();
    let r = server.handle_frame(request(&[b"set", b"mykey", b"myvalue"]));
    assert!(is_simple(&r, "SUCCESS"));
    let r = server.handle_frame(request(&[b"get", b"mykey"]));
    assert!(is_bulk(&r, b"myvalue"));
}

#[test]
fn two_clients_both_read_back_their_value() {
    // two clients each store Hello = World! and read it back, interleaved
    let mut server = Server::new();
    let set = || request(&[b"set", b"Hello", b"World!"]);
    let get = || request(&[b"get", b"Hello"]);
    assert!(is_simple(&server.handle_frame(set()), "SUCCESS"));
    assert!(is_simple(&server.handle_frame(set()), "SUCCESS"));
    assert!(is_bulk(&server.handle_frame(get()), b"World!"));
    assert!(is_bulk(&server.handle_frame(get()), b"World!"));
}

#[test]
fn apply_carries_out_commands() {
    let mut s = Server::new();
    let r = s.apply(Some(Command::SetValue { key: "k".to_string(), value: vec![1, 2, 3] }));
    assert!(is_simple(&r, "SUCCESS"));
    let r = s.apply(Some(Command::Get { key: "k".to_string() }));
    assert!(is_bulk(&r, &[1, 2, 3]));
    let r = s.apply(Some(Command::Unknown));
    assert!(is_error(&r, "[FAIL] Method Unimplemented"));
    let r = s.apply(Some(Command::Unsubscribe));
    assert!(is_error(&r, "[FAIL] Method Unimplemented"));
    assert!(s.apply(None).is_none());
    assert_eq!(s.lookup("k"), Some(vec![1, 2, 3]));
}

#[test]
fn empty_key_and_value_are_stored() {
    let mut s = Server::new();
    assert!(is_simple(&s.handle_frame(request(&[b"set", b"", b""])), "SUCCESS"));
    assert!(is_bulk(&s.handle_frame(request(&[b"get", b""])), b""));
}
