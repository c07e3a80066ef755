use chatty_tcp::codec::{encode_command, encode_response};
use chatty_tcp::config::{log_directive, server_address_of, Component};
use chatty_tcp::types::{ChatCommand, ChatMemo, ChatMessage, ChatResponse};

#[test]
fn test_send_request() {
    let command = ChatCommand::Send(ChatMessage {
        username: "test_user".to_string(),
        content: "Hello world".to_string(),
    });
    let received = encode_command(&command);
    assert!(received.contains("test_user"));
    assert!(received.contains("Hello world"));
    assert!(received.ends_with("\n"));
}

#[test]
fn commands_are_written_as_tagged_json_lines() {
    assert_eq!(
        encode_command(&ChatCommand::Join("alice".to_string())),
        "{\"Join\":\"alice\"}\n"
    );
    assert_eq!(
        encode_command(&ChatCommand::Leave("carl".to_string())),
        "{\"Leave\":\"carl\"}\n"
    );
    assert_eq!(
        encode_command(&ChatCommand::Send(ChatMessage {
            username: "carl".to_string(),
            content: "Hello, world!".to_string(),
        })),
        "{\"Send\":{\"username\":\"carl\",\"content\":\"Hello, world!\"}}\n"
    );
}

#[test]
fn responses_are_written_as_tagged_json_lines() {
    let memo = |u: &str, c: &str| ChatMemo {
        username: u.to_string(),
        content: c.to_string(),
    };
    assert_eq!(
        encode_response(&ChatResponse::Broadcast(memo("david", "Joined"))),
        "{\"Broadcast\":{\"username\":\"david\",\"content\":\"Joined\"}}\n"
    );
    assert_eq!(
        encode_response(&ChatResponse::Joined(memo("alone", "Warm Welcome"))),
        "{\"Joined\":{\"username\":\"alone\",\"content\":\"Warm Welcome\"}}\n"
    );
    assert_eq!(
        encode_response(&ChatResponse::Duplicate(memo("alone", "Sorry"))),
        "{\"Duplicate\":{\"username\":\"alone\",\"content\":\"Sorry\"}}\n"
    );
}

#[test]
fn quotes_and_line_breaks_in_content_are_escaped() {
    let line = encode_response(&ChatResponse::Broadcast(ChatMemo {
        username: "a\"b".to_string(),
        content: "one\ntwo\\".to_string(),
    }));
    assert_eq!(
        line,
        "{\"Broadcast\":{\"username\":\"a\\\"b\",\"content\":\"one\\ntwo\\\\\"}}\n"
    );
    assert_eq!(line.matches('\n').count(), 1);
}

#[test]
fn log_directive_names_the_component() {
    assert_eq!(log_directive(Component::Server, "info"), "server=info");
    assert_eq!(log_directive(Component::Client, "debug"), "client=debug");
}

#[test]
fn server_address_falls_back_to_defaults() {
    assert_eq!(server_address_of(None, None), "localhost:8081");
    assert_eq!(
        server_address_of(Some("127.0.0.1".to_string()), Some("9000".to_string())),
        "127.0.0.1:9000"
    );
    assert_eq!(
        server_address_of(Some("example".to_string()), None),
        "example:8081"
    );
}
