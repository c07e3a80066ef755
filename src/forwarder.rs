use vstd::prelude::*;
use crate::codec::{encode_response, is_frame, response_line};
use crate::types::{ChatResponse, ResponseView};

verus! {

/// What a user's forwarder got from its subscription to the room's channel.
pub enum ChannelEvent {
    /// A response that was published.
    Received(ChatResponse),
    /// The subscription fell behind and this many responses were lost.
    Lagged(u64),
    /// The channel is closed: the room is shutting down.
    Closed,
}

/// What the forwarder does next.
pub enum ForwardAction {
    /// Write this frame to the user's connection, then go on.
    Deliver(String),
    /// The response is the user's own: go on without writing.
    Skip,
    /// Note how many responses were lost, then go on.
    Missed(u64),
    /// End cleanly.
    Finish,
    /// End with an error: something other than a broadcast was on the channel.
    Fail,
}

/// Whether a forwarder of `own` passes on the response: only a broadcast, and
/// only one about another user.
pub open spec fn delivers_to(own: Seq<char>, r: ResponseView) -> bool {
    r matches ResponseView::Broadcast(m) && m.username != own
}

/// Decides the forwarder's next step for the user `own` on one event of
/// its subscription.
pub fn forward_event(own: &String, event: ChannelEvent) -> (a: ForwardAction)
    ensures
        match event {
            ChannelEvent::Received(r) => if delivers_to(own@, r@) {
                a matches ForwardAction::Deliver(line) && line@ == response_line(r@) && is_frame(
                    line@,
                )
            } else if r@ is Broadcast {
                a is Skip
            } else {
                a is Fail
            },
            ChannelEvent::Lagged(n) => a == ForwardAction::Missed(n),
            ChannelEvent::Closed => a is Finish,
        },
{
    match event {
        ChannelEvent::Received(response) => match &response {
            ChatResponse::Broadcast(memo) => {
                if memo.username == *own {
                    ForwardAction::Skip
                } else {
                    ForwardAction::Deliver(encode_response(&response))
                }
            },
            _ => ForwardAction::Fail,
        },
        ChannelEvent::Lagged(n) => ForwardAction::Missed(n),
        ChannelEvent::Closed => ForwardAction::Finish,
    }
}

} // verus!
