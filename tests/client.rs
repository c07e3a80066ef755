use chatty_tcp::client::{display_response, interpret_prompt_line, PromptAction};
use chatty_tcp::codec::encode_command;
use chatty_tcp::types::{ChatMemo, ChatResponse};

fn memo(u: &str, c: &str) -> ChatMemo {
    ChatMemo {
        username: u.to_string(),
        content: c.to_string(),
    }
}

#[test]
fn send_line_becomes_a_send_command() {
    match interpret_prompt_line("send   hello there  ", &"carl".to_string()) {
        PromptAction::Send(command) => assert_eq!(
            encode_command(&command),
            "{\"Send\":{\"username\":\"carl\",\"content\":\"hello there\"}}\n"
        ),
        _ => panic!("a send line must be sent"),
    }
}

#[test]
fn leading_whitespace_before_send_is_kept_out_of_the_message() {
    match interpret_prompt_line("  send x", &"carl".to_string()) {
        PromptAction::Send(command) => assert_eq!(
            encode_command(&command),
            "{\"Send\":{\"username\":\"carl\",\"content\":\"send x\"}}\n"
        ),
        _ => panic!("a send line must be sent"),
    }
}

#[test]
fn leave_line_becomes_a_leave_command() {
    match interpret_prompt_line("leave", &"carl".to_string()) {
        PromptAction::Leave(command) => {
            assert_eq!(encode_command(&command), "{\"Leave\":\"carl\"}\n")
        }
        _ => panic!("a leave line must leave"),
    }
}

#[test]
fn other_lines_are_not_understood() {
    assert!(matches!(
        interpret_prompt_line("hello", &"carl".to_string()),
        PromptAction::Unknown
    ));
    assert!(matches!(
        interpret_prompt_line("   ", &"carl".to_string()),
        PromptAction::Unknown
    ));
    assert!(matches!(
        interpret_prompt_line("sending", &"carl".to_string()),
        PromptAction::Unknown
    ));
}

#[test]
fn responses_are_shown_by_kind() {
    let joined = display_response(&ChatResponse::Joined(memo("carl", "Warm Welcome")));
    assert_eq!(joined.lines, vec!["Warm Welcome, carl".to_string()]);
    assert!(!joined.disconnect);

    let refused = display_response(&ChatResponse::Duplicate(memo("carl", "Sorry")));
    assert_eq!(
        refused.lines,
        vec![
            "Sorry, Attempted Username carl already taken".to_string(),
            "Disconnecting from chat server".to_string()
        ]
    );
    assert!(refused.disconnect);

    let said = display_response(&ChatResponse::Broadcast(memo("david", "hi")));
    assert_eq!(said.lines, vec!["(david): hi".to_string()]);
    assert!(!said.disconnect);
}
