use std::collections::HashMap;

use shortlink::command::{
    reply_for, BackendError, BackendReply, Command, CommandKind, GetCommand, PutCommand, Reply,
};
use shortlink::processor::Processor;

/// Runs every waiting command against `backend`, one at a time, and returns
/// the replies with their tickets, in the order they came.
fn drain(p: &mut Processor, backend: &mut HashMap<String, String>) -> Vec<(u64, Reply)> {
    let mut out = Vec::new();
    while let Some((_, command)) = p.start_next() {
        let answer: BackendReply = match command {
            Command::Put(put) => {
                backend.insert(put.key, put.value);
                Ok(Some("OK".to_string()))
            }
            Command::Get(get) => Ok(backend.get(&get.key).cloned()),
        };
        out.push(p.complete(answer).expect("a command was in execution"));
    }
    out
}

fn submit(p: &mut Processor, backend: &mut HashMap<String, String>, url: &str) -> String {
    let put = PutCommand::for_url(url);
    let key = put.key.clone();
    p.accept(Command::Put(put)).unwrap();
    let replies = drain(p, backend);
    assert!(matches!(replies.last(), Some((_, Reply::Stored))));
    key
}

fn resolve(p: &mut Processor, backend: &mut HashMap<String, String>, key: &str) -> Reply {
    p.accept(Command::Get(GetCommand::for_key(key))).unwrap();
    drain(p, backend).pop().unwrap().1
}

#[test]
fn submit_then_resolve_scenario() {
    let mut p = Processor::new();
    let mut backend = HashMap::new();
    let k1 = submit(&mut p, &mut backend, "https://example.com/a");
    assert_eq!(k1, "zZIiDtPXhvI=");
    match resolve(&mut p, &mut backend, &k1) {
        Reply::Found(url) => assert_eq!(url, "https://example.com/a"),
        _ => panic!("expected the URL"),
    }
    assert!(matches!(resolve(&mut p, &mut backend, "doesnotexist123"), Reply::NotFound));
    let again = submit(&mut p, &mut backend, "https://example.com/a");
    assert_eq!(again, k1);
}

#[test]
fn submit_twice_leaves_one_entry() {
    let mut p = Processor::new();
    let mut backend = HashMap::new();
    let k1 = submit(&mut p, &mut backend, "https://example.com/a");
    let once = backend.clone();
    let k2 = submit(&mut p, &mut backend, "https://example.com/a");
    assert_eq!(k1, k2);
    assert_eq!(backend, once);
    assert_eq!(backend.len(), 1);
}

#[test]
fn never_submitted_key_is_not_found() {
    let mut p = Processor::new();
    let mut backend = HashMap::new();
    assert!(matches!(resolve(&mut p, &mut backend, "QvqzVoOJHXk="), Reply::NotFound));
}

#[test]
fn commands_run_in_acceptance_order_under_other_traffic() {
    let mut p = Processor::new();
    let mut backend = HashMap::new();
    let put = PutCommand::for_url("https://example.com/a");
    let key = put.key.clone();
    assert_eq!(p.accept(Command::Put(PutCommand::for_url("https://example.com/b"))), Some(0));
    assert_eq!(p.accept(Command::Put(put)), Some(1));
    assert_eq!(p.accept(Command::Get(GetCommand::for_key("zzz"))), Some(2));
    assert_eq!(p.accept(Command::Get(GetCommand::for_key(&key))), Some(3));
    assert_eq!(p.pending_len(), 4);
    let replies = drain(&mut p, &mut backend);
    let tickets: Vec<u64> = replies.iter().map(|(t, _)| *t).collect();
    assert_eq!(tickets, vec![0, 1, 2, 3]);
    assert!(matches!(replies[2].1, Reply::NotFound));
    match &replies[3].1 {
        Reply::Found(url) => assert_eq!(url, "https://example.com/a"),
        _ => panic!("expected the URL just written"),
    }
}

#[test]
fn one_command_in_execution_at_a_time() {
    let mut p = Processor::new();
    assert!(p.is_idle());
    assert!(p.start_next().is_none());
    p.accept(Command::Get(GetCommand::for_key("a"))).unwrap();
    p.accept(Command::Get(GetCommand::for_key("b"))).unwrap();
    let (t, c) = p.start_next().unwrap();
    assert_eq!(t, 0);
    assert!(matches!(c, Command::Get(ref g) if g.key == "a"));
    assert!(!p.is_idle());
    assert!(p.start_next().is_none());
    assert_eq!(p.pending_len(), 1);
    assert!(matches!(p.complete(Ok(None)), Some((0, Reply::NotFound))));
    assert!(p.is_idle());
    assert!(p.complete(Ok(None)).is_none());
    let (t, _) = p.start_next().unwrap();
    assert_eq!(t, 1);
}

#[test]
fn backend_failure_reaches_the_caller() {
    let mut p = Processor::new();
    p.accept(Command::Put(PutCommand::for_url("https://example.com/a"))).unwrap();
    p.start_next().unwrap();
    let err = BackendError { message: "connection refused".to_string() };
    match p.complete(Err(err)) {
        Some((0, Reply::Failed(e))) => assert_eq!(e.message, "connection refused"),
        _ => panic!("expected the backend's failure"),
    }
    p.accept(Command::Get(GetCommand::for_key("k"))).unwrap();
    p.start_next().unwrap();
    let err = BackendError { message: "timeout".to_string() };
    assert!(matches!(p.complete(Err(err)), Some((1, Reply::Failed(_)))));
}

#[test]
fn reply_mapping() {
    assert!(matches!(reply_for(CommandKind::Put, Ok(Some("OK".to_string()))), Reply::Stored));
    assert!(matches!(reply_for(CommandKind::Put, Ok(None)), Reply::Stored));
    match reply_for(CommandKind::Get, Ok(Some("u".to_string()))) {
        Reply::Found(v) => assert_eq!(v, "u"),
        _ => panic!("expected the value"),
    }
    assert!(matches!(reply_for(CommandKind::Get, Ok(None)), Reply::NotFound));
    let e = BackendError { message: "boom".to_string() };
    assert!(matches!(reply_for(CommandKind::Get, Err(e)), Reply::Failed(_)));
}

#[test]
fn put_command_for_url_holds_key_and_url() {
    let put = PutCommand::for_url("https://example.com/b");
    assert_eq!(put.key, "QvqzVoOJHXk=");
    assert_eq!(put.value, "https://example.com/b");
    assert_eq!(GetCommand::for_key("abc").key, "abc");
    assert_eq!(Command::Put(put).kind(), CommandKind::Put);
    assert_eq!(Command::Get(GetCommand::for_key("abc")).kind(), CommandKind::Get);
}
