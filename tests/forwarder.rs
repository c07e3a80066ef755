use chatty_tcp::forwarder::{forward_event, ChannelEvent, ForwardAction};
use chatty_tcp::types::{ChatMemo, ChatResponse};

fn broadcast(username: &str, content: &str) -> ChatResponse {
    ChatResponse::Broadcast(ChatMemo {
        username: username.to_string(),
        content: content.to_string(),
    })
}

#[test]
fn test_send_task_different_username() {
    let action = forward_event(
        &"alice".to_string(),
        ChannelEvent::Received(broadcast("carl", "hello, I love tokio")),
    );
    match action {
        ForwardAction::Deliver(received) => {
            assert!(received.contains("carl"));
            assert!(received.contains("hello, I love tokio"));
            assert_eq!(
                received,
                "{\"Broadcast\":{\"username\":\"carl\",\"content\":\"hello, I love tokio\"}}\n"
            );
        }
        _ => panic!("a broadcast from another user must be delivered"),
    }
}

#[test]
fn test_send_task_same_username() {
    let action = forward_event(
        &"alice".to_string(),
        ChannelEvent::Received(broadcast("alice", "hello, I love tokio")),
    );
    assert!(matches!(action, ForwardAction::Skip));
}

#[test]
fn forwarder_fails_on_a_direct_response() {
    let joined = ChatResponse::Joined(ChatMemo {
        username: "carl".to_string(),
        content: "Warm Welcome".to_string(),
    });
    assert!(matches!(
        forward_event(&"alice".to_string(), ChannelEvent::Received(joined)),
        ForwardAction::Fail
    ));
}

#[test]
fn forwarder_notes_lag_and_finishes_on_close() {
    assert!(matches!(
        forward_event(&"alice".to_string(), ChannelEvent::Lagged(3)),
        ForwardAction::Missed(3)
    ));
    assert!(matches!(
        forward_event(&"alice".to_string(), ChannelEvent::Closed),
        ForwardAction::Finish
    ));
}
