use chatroom::chatroom::{route_of, ActorRequest, Chatroom, Route};
use chatroom::codec::{decode_message, encode_log, encode_message, encode_reply};
use chatroom::directory::{resolve, Directory};
use chatroom::edge::{get_messages, post_message, post_messages, root, AppState};
use chatroom::message::{ErrorKind, Message, MessageList, Method, Operation, Reply};

fn texts(l: &MessageList) -> Vec<String> {
    l.messages.iter().map(|m| m.content.clone()).collect()
}

fn msg(s: &str) -> Message {
    Message::new(s.to_string())
}

fn request(path: &str, method: Method, body: &str) -> ActorRequest {
    ActorRequest { path: path.to_string(), method, body: body.to_string() }
}

#[test]
fn fresh_actor_lists_nothing() {
    let mut state = AppState::new();
    let l = get_messages(&mut state).unwrap();
    assert_eq!(l.len(), 0);
    assert_eq!(encode_log(&l), "{\"messages\":[]}");
}

#[test]
fn post_returns_whole_log() {
    let mut state = AppState::new();
    let l = post_messages(&mut state, "{\"content\":\"hi\"}").unwrap();
    assert_eq!(texts(&l), vec!["hi".to_string()]);
    assert_eq!(encode_log(&l), "{\"messages\":[{\"content\":\"hi\"}]}");
}

#[test]
fn sequential_posts_keep_order() {
    let mut state = AppState::new();
    post_messages(&mut state, "{\"content\":\"a\"}").unwrap();
    post_messages(&mut state, "{\"content\":\"b\"}").unwrap();
    let l = get_messages(&mut state).unwrap();
    assert_eq!(texts(&l), vec!["a".to_string(), "b".to_string()]);
    assert_eq!(
        encode_log(&l),
        "{\"messages\":[{\"content\":\"a\"},{\"content\":\"b\"}]}"
    );
}

#[test]
fn post_without_content_is_refused() {
    let mut state = AppState::new();
    post_messages(&mut state, "{\"content\":\"kept\"}").unwrap();
    let before = texts(&get_messages(&mut state).unwrap());
    let r = post_messages(&mut state, "{}");
    assert!(matches!(r, Err(ErrorKind::InvalidRequestBody)));
    let after = texts(&get_messages(&mut state).unwrap());
    assert_eq!(before, after);
}

#[test]
fn malformed_bodies_are_refused() {
    let mut state = AppState::new();
    for body in ["", "not json", "{\"content\":5}", "[1,2]", "{\"text\":\"x\"}"] {
        assert!(matches!(post_messages(&mut state, body), Err(ErrorKind::InvalidRequestBody)));
    }
    assert_eq!(get_messages(&mut state).unwrap().len(), 0);
}

#[test]
fn extra_members_are_ignored() {
    let m = decode_message("{\"content\":\"x\",\"from\":\"me\"}").unwrap();
    assert_eq!(m.content, "x");
}

#[test]
fn content_is_kept_byte_for_byte() {
    let mut state = AppState::new();
    let l = post_messages(&mut state, "{\"content\":\"say \\\"hé\\\"\\n\"}").unwrap();
    assert_eq!(l.content_at(0), "say \"hé\"\n");
    assert_eq!(encode_log(&l), "{\"messages\":[{\"content\":\"say \\\"hé\\\"\\n\"}]}");
}

#[test]
fn message_encoding_quotes_text() {
    assert_eq!(encode_message(&msg("a\"b")), "{\"content\":\"a\\\"b\"}");
    assert_eq!(encode_message(&msg("")), "{\"content\":\"\"}");
}

#[test]
fn root_answers_null() {
    let mut state = AppState::new();
    assert_eq!(root(&mut state).unwrap(), "null");
    assert_eq!(encode_reply(&Reply::Info), "null");
}

#[test]
fn appends_many_lose_nothing() {
    let mut state = AppState::new();
    let n = 50;
    for i in 0..n {
        let l = post_message(&mut state, msg(&format!("m{}", i))).unwrap();
        assert_eq!(l.len(), i + 1);
        assert_eq!(l.content_at(i), format!("m{}", i));
    }
    let l = get_messages(&mut state).unwrap();
    assert_eq!(l.len(), n);
    for i in 0..n {
        assert_eq!(l.content_at(i), format!("m{}", i));
    }
}

#[test]
fn queue_is_served_in_order() {
    let mut room = Chatroom::new();
    let replies = room.process(vec![
        Operation::List,
        Operation::Append(msg("a")),
        Operation::Info,
        Operation::List,
        Operation::Append(msg("b")),
    ]);
    assert_eq!(replies.len(), 5);
    let logs: Vec<Option<Vec<String>>> = replies
        .iter()
        .map(|r| match r {
            Reply::Info => None,
            Reply::Messages(l) => Some(texts(l)),
        })
        .collect();
    assert_eq!(logs[0], Some(vec![]));
    assert_eq!(logs[1], Some(vec!["a".to_string()]));
    assert_eq!(logs[2], None);
    assert_eq!(logs[3], Some(vec!["a".to_string()]));
    assert_eq!(logs[4], Some(vec!["a".to_string(), "b".to_string()]));
    assert_eq!(texts(&room.list()), vec!["a".to_string(), "b".to_string()]);
}

#[test]
fn same_name_reaches_same_actor() {
    let mut dir = Directory::new();
    let a = dir.activate(&resolve("CHATROOM"));
    let b = dir.activate(&resolve("CHATROOM"));
    assert_eq!(a, b);
    let other = dir.activate(&resolve("OTHER"));
    assert_ne!(a, other);
    dir.call(&a, Operation::Append(msg("x"))).unwrap();
    match dir.call(&b, Operation::List).unwrap() {
        Reply::Messages(l) => assert_eq!(texts(&l), vec!["x".to_string()]),
        Reply::Info => panic!("list answered with info"),
    }
    match dir.call(&other, Operation::List).unwrap() {
        Reply::Messages(l) => assert_eq!(l.len(), 0),
        Reply::Info => panic!("list answered with info"),
    }
}

#[test]
fn stale_handle_is_transport_error() {
    let mut dir = Directory::new();
    let a = dir.activate(&resolve("CHATROOM"));
    let mut empty = Directory::new();
    assert!(matches!(empty.call(&a, Operation::List), Err(ErrorKind::TransportError)));
}

#[test]
fn actors_are_separate_per_name() {
    let mut one = AppState::with_actor("ONE");
    post_messages(&mut one, "{\"content\":\"only here\"}").unwrap();
    let mut two = AppState::with_actor("TWO");
    assert_eq!(get_messages(&mut two).unwrap().len(), 0);
    assert_eq!(get_messages(&mut one).unwrap().len(), 1);
}

#[test]
fn routes_cover_the_protocol() {
    assert_eq!(route_of("/", Method::Get), Ok(Route::Info));
    assert_eq!(route_of("/", Method::Post), Ok(Route::Info));
    assert_eq!(route_of("/messages", Method::Get), Ok(Route::List));
    assert_eq!(route_of("/messages", Method::Post), Ok(Route::Append));
    for m in [Method::Head, Method::Put, Method::Patch, Method::Delete, Method::Options, Method::Connect, Method::Trace] {
        assert_eq!(route_of("/messages", m), Err(ErrorKind::UnsupportedOperation));
    }
    assert_eq!(route_of("/other", Method::Get), Err(ErrorKind::UnsupportedOperation));
    assert_eq!(route_of("", Method::Get), Err(ErrorKind::UnsupportedOperation));
}

#[test]
fn actor_fetch_serves_requests() {
    let mut room = Chatroom::new();
    match room.fetch(&request("/messages", Method::Post, "{\"content\":\"hi\"}")).unwrap() {
        Reply::Messages(l) => assert_eq!(texts(&l), vec!["hi".to_string()]),
        Reply::Info => panic!("append answered with info"),
    }
    assert!(matches!(room.fetch(&request("/", Method::Get, "")), Ok(Reply::Info)));
    assert!(matches!(
        room.fetch(&request("/messages", Method::Delete, "")),
        Err(ErrorKind::UnsupportedOperation)
    ));
    assert!(matches!(
        room.fetch(&request("/nowhere", Method::Get, "")),
        Err(ErrorKind::UnsupportedOperation)
    ));
    assert!(matches!(
        room.fetch(&request("/messages", Method::Post, "{}")),
        Err(ErrorKind::InvalidRequestBody)
    ));
    assert_eq!(texts(&room.list()), vec!["hi".to_string()]);
}

#[test]
fn operations_become_requests() {
    let r = Operation::Append(msg("hi")).to_request();
    assert_eq!(r.path, "/messages");
    assert_eq!(r.method, Method::Post);
    assert_eq!(r.body, "{\"content\":\"hi\"}");
    let mut room = Chatroom::new();
    assert!(matches!(room.fetch(&r), Ok(Reply::Messages(_))));
    let l = Operation::List.to_request();
    assert_eq!((l.path.as_str(), l.method, l.body.as_str()), ("/messages", Method::Get, ""));
    let i = Operation::Info.to_request();
    assert_eq!((i.path.as_str(), i.method), ("/", Method::Get));
}

#[test]
fn error_statuses() {
    assert_eq!(ErrorKind::InvalidRequestBody.status(), 400);
    assert_eq!(ErrorKind::DirectoryUnavailable.status(), 503);
    assert_eq!(ErrorKind::TransportError.status(), 502);
    assert_eq!(ErrorKind::UnsupportedOperation.status(), 404);
}

#[test]
fn statuses_map_back_to_errors() {
    for e in [
        ErrorKind::InvalidRequestBody,
        ErrorKind::DirectoryUnavailable,
        ErrorKind::TransportError,
        ErrorKind::UnsupportedOperation,
    ] {
        assert_eq!(ErrorKind::from_status(e.status()), Some(e));
    }
    assert_eq!(ErrorKind::from_status(200), None);
    assert_eq!(ErrorKind::from_status(500), None);
}
