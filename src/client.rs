use vstd::prelude::*;
use crate::types::{ChatCommand, ChatMessage, ChatResponse, CommandView, MemoView, ResponseView};

verus! {

/// The first word of a text: its first run of characters that are not
/// whitespace, if it has one.
pub uninterp spec fn first_word_of(s: Seq<char>) -> Option<Seq<char>>;

/// A text without its leading and trailing whitespace.
pub uninterp spec fn trimmed(s: Seq<char>) -> Seq<char>;

/// A text with every leading repetition of `p` taken off.
pub open spec fn without_leading(s: Seq<char>, p: Seq<char>) -> Seq<char>
    decreases s.len(),
{
    if p.len() > 0 && p.len() <= s.len() && s.subrange(0, p.len() as int) == p {
        without_leading(s.subrange(p.len() as int, s.len() as int), p)
    } else {
        s
    }
}

/// Relies on str::split_whitespace, of which the first item is the first
/// word of the text.
#[verifier::external_body]
fn first_word(s: &str) -> (r: Option<String>)
    ensures
        match r {
            Some(w) => first_word_of(s@) == Some(w@),
            None => first_word_of(s@) is None,
        },
{
    s.split_whitespace().next().map(|w| w.to_string())
}

/// Relies on str::trim_start_matches with a text pattern: it takes off the
/// pattern as long as the text starts with it.
#[verifier::external_body]
fn strip_leading(s: &str, p: &str) -> (r: String)
    ensures
        r@ == without_leading(s@, p@),
{
    s.trim_start_matches(p).to_string()
}

/// Relies on str::trim, which takes off leading and trailing whitespace.
#[verifier::external_body]
fn trim(s: &str) -> (r: String)
    ensures
        r@ == trimmed(s@),
{
    s.trim().to_string()
}

/// What a line typed at the client's prompt asks for.
pub enum PromptAction {
    /// Send this command, then prompt again.
    Send(ChatCommand),
    /// Send this command, then quit.
    Leave(ChatCommand),
    /// The line is neither `send <message>` nor `leave`.
    Unknown,
}

/// The text a line sends: the line without its leading `send` words, trimmed.
pub open spec fn sent_text(line: Seq<char>) -> Seq<char> {
    trimmed(without_leading(line, "send"@))
}

/// Reads a prompt line of `username`: a first word `send` sends the rest of
/// the line as a message, a first word `leave` leaves the room, and anything
/// else is not understood.
pub fn interpret_prompt_line(line: &str, username: &String) -> (a: PromptAction)
    ensures
        first_word_of(line@) == Some("send"@) ==> (a matches PromptAction::Send(c) && c@
            == CommandView::Send(MemoView { username: username@, content: sent_text(line@) })),
        first_word_of(line@) == Some("leave"@) ==> (a matches PromptAction::Leave(c) && c@
            == CommandView::Leave(username@)),
        first_word_of(line@) != Some("send"@) && first_word_of(line@) != Some("leave"@)
            ==> a is Unknown,
{
    proof {
        reveal_strlit("send");
        reveal_strlit("leave");
    }
    let word = first_word(line);
    match word {
        Some(w) => {
            if w == "send".to_string() {
                let rest = strip_leading(line, "send");
                let content = trim(rest.as_str());
                PromptAction::Send(ChatCommand::Send(ChatMessage { username: username.clone(), content }))
            } else if w == "leave".to_string() {
                PromptAction::Leave(ChatCommand::Leave(username.clone()))
            } else {
                PromptAction::Unknown
            }
        },
        None => PromptAction::Unknown,
    }
}

/// What the client shows for a response, and whether it then disconnects.
pub struct ShownResponse {
    pub lines: Vec<String>,
    pub disconnect: bool,
}

/// The lines shown for a response: a welcome as `<content>, <username>`, a
/// refusal as `<content>, Attempted Username <username> already taken` and a
/// farewell line, a broadcast as `(<username>): <content>`.
pub open spec fn shown_lines(r: ResponseView) -> Seq<Seq<char>> {
    match r {
        ResponseView::Joined(m) => seq![m.content + ", "@ + m.username],
        ResponseView::Duplicate(m) => seq![
            m.content + ", Attempted Username "@ + m.username + " already taken"@,
            "Disconnecting from chat server"@,
        ],
        ResponseView::Broadcast(m) => seq!["("@ + m.username + "): "@ + m.content],
    }
}

/// How the client shows a response; only a refusal of its name makes it
/// disconnect.
pub fn display_response(r: &ChatResponse) -> (s: ShownResponse)
    ensures
        s.lines@.len() == shown_lines(r@).len(),
        forall|i: int| 0 <= i < s.lines@.len() ==> #[trigger] s.lines@[i]@ == shown_lines(r@)[i],
        s.disconnect == (r@ is Duplicate),
{
    let mut lines: Vec<String> = Vec::new();
    match r {
        ChatResponse::Joined(m) => {
            let mut t = m.content.clone();
            t.append(", ");
            t.append(m.username.as_str());
            lines.push(t);
            ShownResponse { lines, disconnect: false }
        },
        ChatResponse::Duplicate(m) => {
            let mut t = m.content.clone();
            t.append(", Attempted Username ");
            t.append(m.username.as_str());
            t.append(" already taken");
            lines.push(t);
            lines.push("Disconnecting from chat server".to_string());
            ShownResponse { lines, disconnect: true }
        },
        ChatResponse::Broadcast(m) => {
            let mut t = "(".to_string();
            t.append(m.username.as_str());
            t.append("): ");
            t.append(m.content.as_str());
            lines.push(t);
            ShownResponse { lines, disconnect: false }
        },
    }
}

} // verus!
