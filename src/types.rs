use vstd::prelude::*;

verus! {

/// A chat line sent by a client: who speaks and what is said.
#[derive(Debug)]
pub struct ChatMessage {
    pub username: String,
    pub content: String,
}

/// A command sent by a client to the room.
#[derive(Debug)]
pub enum ChatCommand {
    Join(String),
    Send(ChatMessage),
    Leave(String),
}

/// The payload of every response: a user and a text about them.
#[derive(Debug, Clone)]
pub struct ChatMemo {
    pub username: String,
    pub content: String,
}

/// A response sent by the room to a client.
#[derive(Debug, Clone)]
pub enum ChatResponse {
    Broadcast(ChatMemo),
    Joined(ChatMemo),
    Duplicate(ChatMemo),
}

/// The abstract value of a memo or a chat message.
pub struct MemoView {
    pub username: Seq<char>,
    pub content: Seq<char>,
}

/// The abstract value of a command.
pub enum CommandView {
    Join(Seq<char>),
    Send(MemoView),
    Leave(Seq<char>),
}

/// The abstract value of a response.
pub enum ResponseView {
    Broadcast(MemoView),
    Joined(MemoView),
    Duplicate(MemoView),
}

impl View for ChatMessage {
    type V = MemoView;

    open spec fn view(&self) -> MemoView {
        MemoView { username: self.username@, content: self.content@ }
    }
}

impl View for ChatMemo {
    type V = MemoView;

    open spec fn view(&self) -> MemoView {
        MemoView { username: self.username@, content: self.content@ }
    }
}

impl View for ChatCommand {
    type V = CommandView;

    open spec fn view(&self) -> CommandView {
        match self {
            ChatCommand::Join(u) => CommandView::Join(u@),
            ChatCommand::Send(m) => CommandView::Send(m@),
            ChatCommand::Leave(u) => CommandView::Leave(u@),
        }
    }
}

impl View for ChatResponse {
    type V = ResponseView;

    open spec fn view(&self) -> ResponseView {
        match self {
            ChatResponse::Broadcast(m) => ResponseView::Broadcast(m@),
            ChatResponse::Joined(m) => ResponseView::Joined(m@),
            ChatResponse::Duplicate(m) => ResponseView::Duplicate(m@),
        }
    }
}

impl ResponseView {
    /// The memo that every response carries.
    pub open spec fn memo(self) -> MemoView {
        match self {
            ResponseView::Broadcast(m) => m,
            ResponseView::Joined(m) => m,
            ResponseView::Duplicate(m) => m,
        }
    }
}

/// The memo of a user and a text.
pub open spec fn memo_of(username: Seq<char>, content: Seq<char>) -> MemoView {
    MemoView { username, content }
}

impl ChatMemo {
    /// A memo about `username` that says `content`.
    pub fn new(username: String, content: &str) -> (m: ChatMemo)
        ensures
            m@ == memo_of(username@, content@),
    {
        ChatMemo { username, content: content.to_string() }
    }
}

impl ChatResponse {
    /// The memo that this response carries.
    pub fn memo(&self) -> (m: &ChatMemo)
        ensures
            m@ == self@.memo(),
    {
        match self {
            ChatResponse::Broadcast(m) => m,
            ChatResponse::Joined(m) => m,
            ChatResponse::Duplicate(m) => m,
        }
    }
}

} // verus!
