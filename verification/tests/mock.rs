use irc::data::command::Command;
use irc::data::config::Config;
use irc::data::message::Message;
use irc::server::mock::MockServer;
use irc::server::Server;
use std::io::{Error, ErrorKind};

fn settings() -> Config {
    Config {
        nickname: "nick".to_string(),
        username: "user".to_string(),
        realname: "Real Name".to_string(),
        server: "localhost".to_string(),
        port: 6667,
    }
}

fn ping(token: &str) -> Message {
    Message {
        prefix: None,
        command: "PING".to_string(),
        args: Vec::new(),
        suffix: Some(token.to_string()),
    }
}

#[test]
fn a_new_mock_has_sent_and_received_nothing() {
    let mut server = MockServer::new(settings());
    assert!(server.sent().is_empty());
    assert_eq!(server.recv(), None);
    assert_eq!(server.config(), &settings());
}

#[test]
fn mock_send_succeeds_when_nothing_is_scripted() {
    let mut server = MockServer::new(settings());
    assert!(server.send(Command::NICK("a".to_string())).is_ok());
    assert!(server.send(Command::NICK("b".to_string())).is_ok());
    assert_eq!(
        server.sent(),
        vec![&Command::NICK("a".to_string()), &Command::NICK("b".to_string())]
    );
}

#[test]
fn mock_gives_the_scripted_answers_in_order() {
    let mut server = MockServer::new(settings());
    server.answer(Err(Error::new(ErrorKind::BrokenPipe, "first")));
    server.answer(Ok(()));
    server.answer(Err(Error::new(ErrorKind::TimedOut, "third")));
    let first = server.send(Command::NICK("a".to_string())).unwrap_err();
    assert_eq!(first.kind(), ErrorKind::BrokenPipe);
    assert_eq!(first.to_string(), "first");
    assert!(server.send(Command::NICK("b".to_string())).is_ok());
    let third = server.send(Command::NICK("c".to_string())).unwrap_err();
    assert_eq!(third.kind(), ErrorKind::TimedOut);
    assert_eq!(third.to_string(), "third");
    assert!(server.send(Command::NICK("d".to_string())).is_ok());
}

#[test]
fn mock_records_refused_commands_too() {
    let mut server = MockServer::new(settings());
    server.answer(Err(Error::new(ErrorKind::BrokenPipe, "closed")));
    assert!(server.send(Command::OPER("root".to_string(), "pw".to_string())).is_err());
    assert_eq!(
        server.sent(),
        vec![&Command::OPER("root".to_string(), "pw".to_string())]
    );
}

#[test]
fn mock_yields_the_delivered_messages_in_order() {
    let mut server = MockServer::new(settings());
    server.deliver(ping("1"));
    server.deliver(ping("2"));
    assert_eq!(server.recv(), Some(ping("1")));
    server.deliver(ping("3"));
    assert_eq!(server.recv(), Some(ping("2")));
    assert_eq!(server.recv(), Some(ping("3")));
    assert_eq!(server.recv(), None);
}

#[test]
fn mock_sent_leaves_out_what_was_received() {
    let mut server = MockServer::new(settings());
    server.deliver(ping("1"));
    server.send(Command::NICK("a".to_string())).unwrap();
    assert_eq!(server.recv(), Some(ping("1")));
    assert_eq!(server.recv(), None);
    server.send(Command::PONG("1".to_string(), None)).unwrap();
    assert_eq!(
        server.sent(),
        vec![&Command::NICK("a".to_string()), &Command::PONG("1".to_string(), None)]
    );
}

#[test]
fn mock_iter_steps_through_the_delivered_messages() {
    let mut server = MockServer::new(settings());
    server.deliver(ping("1"));
    server.deliver(ping("2"));
    let mut seen = Vec::new();
    let mut incoming = server.iter();
    while let Some(message) = incoming.next() {
        seen.push(message);
    }
    assert_eq!(seen, vec![ping("1"), ping("2")]);
}
