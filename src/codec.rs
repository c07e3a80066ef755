use vstd::prelude::*;
use crate::types::{ChatCommand, ChatResponse, CommandView, MemoView, ResponseView};

verus! {

/// The JSON string literal that stands for the text `s`, quotes included.
pub uninterp spec fn json_quoted(s: Seq<char>) -> Seq<char>;

/// Whether `s` holds no line break.
pub open spec fn has_no_newline(s: Seq<char>) -> bool {
    forall|i: int| 0 <= i < s.len() ==> s[i] != '\n'
}

/// Whether `s` is one frame of the wire: a single line break, at its end.
pub open spec fn is_frame(s: Seq<char>) -> bool {
    &&& s.len() > 0
    &&& s.last() == '\n'
    &&& has_no_newline(s.drop_last())
}

/// Relies on serde_json::to_string applied to a `str`: it writes the JSON
/// string literal of the text, in which every control character, a line break
/// among them, is escaped. Serialising a `str` into memory has no way to fail.
#[verifier::external_body]
fn quote_json(s: &str) -> (r: String)
    ensures
        r@ == json_quoted(s@),
        has_no_newline(r@),
{
    match serde_json::to_string(s) {
        Ok(t) => t,
        Err(_) => String::new(),
    }
}

/// The name under which a response's variant is written.
pub open spec fn response_tag(r: ResponseView) -> Seq<char> {
    match r {
        ResponseView::Broadcast(_) => "Broadcast"@,
        ResponseView::Joined(_) => "Joined"@,
        ResponseView::Duplicate(_) => "Duplicate"@,
    }
}

/// A memo written as a JSON object, its username first.
pub open spec fn memo_json(m: MemoView) -> Seq<char> {
    "{\"username\":"@ + json_quoted(m.username) + ",\"content\":"@ + json_quoted(m.content)
        + "}"@
}

/// The line that carries a response: `{"Tag":{"username":..,"content":..}}`
/// and a line break.
pub open spec fn response_line(r: ResponseView) -> Seq<char> {
    "{\""@ + response_tag(r) + "\":"@ + memo_json(r.memo()) + "}\n"@
}

/// The line that carries a command: `{"Join":".."}`, `{"Leave":".."}` or
/// `{"Send":{"username":..,"content":..}}`, and a line break.
pub open spec fn command_line(c: CommandView) -> Seq<char> {
    match c {
        CommandView::Join(u) => "{\"Join\":"@ + json_quoted(u) + "}\n"@,
        CommandView::Send(m) => "{\"Send\":"@ + memo_json(m) + "}\n"@,
        CommandView::Leave(u) => "{\"Leave\":"@ + json_quoted(u) + "}\n"@,
    }
}

proof fn lemma_concat_no_newline(a: Seq<char>, b: Seq<char>)
    requires
        has_no_newline(a),
        has_no_newline(b),
    ensures
        has_no_newline(a + b),
{
    assert forall|i: int| 0 <= i < (a + b).len() implies (a + b)[i] != '\n' by {
        if i < a.len() {
            assert((a + b)[i] == a[i]);
        } else {
            assert((a + b)[i] == b[i - a.len()]);
        }
    }
}

proof fn lemma_frame(body: Seq<char>)
    requires
        has_no_newline(body),
    ensures
        is_frame(body + seq!['\n']),
{
    assert((body + seq!['\n']).drop_last() =~= body);
}

fn push_str(s: &mut String, t: &str)
    ensures
        final(s)@ == old(s)@ + t@,
{
    s.append(t);
}

fn push_memo(out: &mut String, username: &String, content: &String)
    requires
        has_no_newline(old(out)@),
    ensures
        final(out)@ == old(out)@ + memo_json(MemoView { username: username@, content: content@ }),
        has_no_newline(final(out)@),
{
    proof {
        reveal_strlit("{\"username\":");
        reveal_strlit(",\"content\":");
        reveal_strlit("}");
    }
    let ghost start = out@;
    let u = quote_json(username.as_str());
    let c = quote_json(content.as_str());
    push_str(out, "{\"username\":");
    proof { lemma_concat_no_newline(start, "{\"username\":"@); }
    push_str(out, u.as_str());
    proof { lemma_concat_no_newline(start + "{\"username\":"@, u@); }
    push_str(out, ",\"content\":");
    proof { lemma_concat_no_newline(start + "{\"username\":"@ + u@, ",\"content\":"@); }
    push_str(out, c.as_str());
    proof { lemma_concat_no_newline(start + "{\"username\":"@ + u@ + ",\"content\":"@, c@); }
    push_str(out, "}");
    proof {
        lemma_concat_no_newline(start + "{\"username\":"@ + u@ + ",\"content\":"@ + c@, "}"@);
        assert(out@ =~= start + memo_json(MemoView { username: username@, content: content@ }));
    }
}

/// Ends a record with a closing brace and the line break that frames it.
fn close_frame(out: &mut String)
    requires
        has_no_newline(old(out)@),
    ensures
        final(out)@ == old(out)@ + "}\n"@,
        is_frame(final(out)@),
{
    proof {
        reveal_strlit("}\n");
        lemma_concat_no_newline(old(out)@, seq!['}']);
        lemma_frame(old(out)@ + seq!['}']);
        assert(old(out)@ + "}\n"@ =~= old(out)@ + seq!['}'] + seq!['\n']);
    }
    push_str(out, "}\n");
}

/// Writes a response as one frame of the wire.
pub fn encode_response(r: &ChatResponse) -> (line: String)
    ensures
        line@ == response_line(r@),
        is_frame(line@),
{
    proof {
        reveal_strlit("{\"");
        reveal_strlit("\":");
        reveal_strlit("Broadcast");
        reveal_strlit("Joined");
        reveal_strlit("Duplicate");
    }
    let mut out = "{\"".to_string();
    let tag = match r {
        ChatResponse::Broadcast(_) => "Broadcast",
        ChatResponse::Joined(_) => "Joined",
        ChatResponse::Duplicate(_) => "Duplicate",
    };
    push_str(&mut out, tag);
    push_str(&mut out, "\":");
    proof {
        assert(out@ =~= "{\""@ + response_tag(r@) + "\":"@);
        assert(has_no_newline(out@));
    }
    let memo = r.memo();
    push_memo(&mut out, &memo.username, &memo.content);
    close_frame(&mut out);
    proof {
        assert(out@ =~= response_line(r@));
    }
    out
}

/// Writes a command as one frame of the wire.
pub fn encode_command(c: &ChatCommand) -> (line: String)
    ensures
        line@ == command_line(c@),
        is_frame(line@),
{
    proof {
        reveal_strlit("{\"Join\":");
        reveal_strlit("{\"Send\":");
        reveal_strlit("{\"Leave\":");
    }
    match c {
        ChatCommand::Join(u) => {
            let mut out = "{\"Join\":".to_string();
            let q = quote_json(u.as_str());
            push_str(&mut out, q.as_str());
            proof { lemma_concat_no_newline("{\"Join\":"@, q@); }
            close_frame(&mut out);
            proof { assert(out@ =~= command_line(c@)); }
            out
        },
        ChatCommand::Send(m) => {
            let mut out = "{\"Send\":".to_string();
            push_memo(&mut out, &m.username, &m.content);
            close_frame(&mut out);
            proof { assert(out@ =~= command_line(c@)); }
            out
        },
        ChatCommand::Leave(u) => {
            let mut out = "{\"Leave\":".to_string();
            let q = quote_json(u.as_str());
            push_str(&mut out, q.as_str());
            proof { lemma_concat_no_newline("{\"Leave\":"@, q@); }
            close_frame(&mut out);
            proof { assert(out@ =~= command_line(c@)); }
            out
        },
    }
}

} // verus!
