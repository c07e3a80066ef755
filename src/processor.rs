use vstd::prelude::*;
use crate::registry::Registry;
use crate::types::{ChatCommand, ChatMemo, ChatResponse, CommandView, ResponseView, memo_of};

verus! {

/// What a connection's command processor must do once the registry has
/// taken a command: stop a forwarder, publish a response to the room, and
/// answer the connection directly.
pub struct CommandOutcome<H> {
    pub stopped: Option<H>,
    pub publish: Option<ChatResponse>,
    pub reply: Option<ChatResponse>,
}

/// The abstract value of an optional response.
pub open spec fn opt_view(r: Option<ChatResponse>) -> Option<ResponseView> {
    match r {
        Some(x) => Some(x@),
        None => None,
    }
}

/// Whether the command is a `Join` under a name that is not active: the one
/// case in which a forwarder is started and the registry grows.
pub open spec fn admits(active: Set<Seq<char>>, c: CommandView) -> bool {
    c matches CommandView::Join(u) && !active.contains(u)
}

/// The active names once the command is processed.
pub open spec fn names_after(active: Set<Seq<char>>, c: CommandView) -> Set<Seq<char>> {
    match c {
        CommandView::Join(u) => active.insert(u),
        CommandView::Send(_) => active,
        CommandView::Leave(u) => active.remove(u),
    }
}

/// The registry once a command that starts no forwarder is processed.
pub open spec fn registry_after<H>(reg: Map<Seq<char>, H>, c: CommandView) -> Map<Seq<char>, H> {
    match c {
        CommandView::Leave(u) => reg.remove(u),
        _ => reg,
    }
}

/// The direct answer to the connection that sent the command.
pub open spec fn reply_for(active: Set<Seq<char>>, c: CommandView) -> Option<ResponseView> {
    match c {
        CommandView::Join(u) => if active.contains(u) {
            Some(ResponseView::Duplicate(memo_of(u, "Sorry"@)))
        } else {
            Some(ResponseView::Joined(memo_of(u, "Warm Welcome"@)))
        },
        _ => None,
    }
}

/// What the command publishes to every other user.
pub open spec fn published_for(active: Set<Seq<char>>, c: CommandView) -> Option<ResponseView> {
    match c {
        CommandView::Join(u) => if active.contains(u) {
            None
        } else {
            Some(ResponseView::Broadcast(memo_of(u, "Joined"@)))
        },
        CommandView::Send(m) => Some(ResponseView::Broadcast(m)),
        CommandView::Leave(u) => Some(ResponseView::Broadcast(memo_of(u, "Left"@))),
    }
}

/// The forwarder that the command stops: that of the user who leaves, if
/// that user is active.
pub open spec fn stopped_by<H>(reg: Map<Seq<char>, H>, c: CommandView) -> Option<H> {
    match c {
        CommandView::Leave(u) => if reg.contains_key(u) {
            Some(reg[u])
        } else {
            None
        },
        _ => None,
    }
}

/// Takes one command of a connection against the registry, as one critical
/// section. A `Join` under a free name calls `spawn` for the new user's
/// forwarder and registers its handle; under a taken name it is refused with
/// `Duplicate` and changes nothing. A `Send` is published as it is, whoever
/// sent it. A `Leave` removes the name if present, hands back its forwarder to
/// be stopped, and announces the departure in any case.
pub fn process_command<H, F: FnOnce() -> H>(
    registry: &mut Registry<H>,
    command: ChatCommand,
    spawn: F,
) -> (out: CommandOutcome<H>)
    requires
        old(registry).wf(),
        call_requires(spawn, ()),
    ensures
        final(registry).wf(),
        final(registry)@.dom() == names_after(old(registry)@.dom(), command@),
        admits(old(registry)@.dom(), command@) ==> ({
            let u = command@->Join_0;
            &&& final(registry)@ == old(registry)@.insert(u, final(registry)@[u])
            &&& call_ensures(spawn, (), final(registry)@[u])
        }),
        !admits(old(registry)@.dom(), command@) ==> final(registry)@ == registry_after(
            old(registry)@,
            command@,
        ),
        opt_view(out.reply) == reply_for(old(registry)@.dom(), command@),
        opt_view(out.publish) == published_for(old(registry)@.dom(), command@),
        out.stopped == stopped_by(old(registry)@, command@),
{
    match command {
        ChatCommand::Join(username) => {
            if registry.contains(&username) {
                proof {
                    assert(old(registry)@.dom().insert(username@) =~= old(registry)@.dom());
                }
                let reply = ChatResponse::Duplicate(ChatMemo::new(username, "Sorry"));
                CommandOutcome { stopped: None, publish: None, reply: Some(reply) }
            } else {
                let handle = spawn();
                let announced = ChatMemo::new(username.clone(), "Joined");
                let welcome = ChatMemo::new(username.clone(), "Warm Welcome");
                let ghost u = username@;
                let _ = registry.try_register(username, handle);
                proof {
                    assert(registry@[u] == handle);
                    assert(registry@.dom() =~= old(registry)@.dom().insert(u));
                }
                CommandOutcome {
                    stopped: None,
                    publish: Some(ChatResponse::Broadcast(announced)),
                    reply: Some(ChatResponse::Joined(welcome)),
                }
            }
        },
        ChatCommand::Send(message) => {
            let memo = ChatMemo { username: message.username, content: message.content };
            CommandOutcome { stopped: None, publish: Some(ChatResponse::Broadcast(memo)), reply: None }
        },
        ChatCommand::Leave(username) => {
            let stopped = remove_username(registry, &username);
            let announced = ChatMemo::new(username, "Left");
            CommandOutcome { stopped, publish: Some(ChatResponse::Broadcast(announced)), reply: None }
        },
    }
}

/// Removes `username` from the registry and hands back its forwarder, to be
/// stopped; a name that is not active is left alone and gives `None`.
pub fn remove_username<H>(registry: &mut Registry<H>, username: &String) -> (stopped: Option<H>)
    requires
        old(registry).wf(),
    ensures
        final(registry).wf(),
        final(registry)@ == old(registry)@.remove(username@),
        stopped == stopped_by(old(registry)@, CommandView::Leave(username@)),
{
    registry.unregister(username)
}

} // verus!
