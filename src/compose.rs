use vstd::prelude::*;

use crate::message::{views, Message, MessageView};

verus! {

/// How one stored message is shown to `requester`: their own messages under `you`.
pub open spec fn rendered_line(m: MessageView, requester: Seq<char>) -> Seq<char> {
    (if m.username == requester {
        "you"@
    } else {
        m.username
    }) + ": "@ + m.content
}

/// The reply to `requester`: one rendered line per message, in order, joined by
/// newlines, with no trailing newline.
pub open spec fn response_text(ms: Seq<MessageView>, requester: Seq<char>) -> Seq<char>
    decreases ms.len(),
{
    if ms.len() == 0 {
        Seq::empty()
    } else if ms.len() == 1 {
        rendered_line(ms[0], requester)
    } else {
        response_text(ms.drop_last(), requester) + "\n"@ + rendered_line(ms.last(), requester)
    }
}

/// Renders a snapshot of the store as the reply to `requester`.
pub fn compose_response(messages: &Vec<Message>, requester: &str) -> (r: String)
    ensures
        r@ == response_text(views(messages@), requester@),
{
    let who = requester.to_owned();
    let mut out = String::new();
    let mut i: usize = 0;
    while i < messages.len()
        invariant
            i <= messages@.len(),
            who@ == requester@,
            out@ == response_text(views(messages@.subrange(0, i as int)), requester@),
        decreases messages@.len() - i,
    {
        let m = &messages[i];
        if i > 0 {
            out.append("\n");
        }
        if m.is_from(&who) {
            out.append("you");
        } else {
            out.append(m.username());
        }
        out.append(": ");
        out.append(m.message());
        proof {
            let prev = views(messages@.subrange(0, i as int));
            let next = views(messages@.subrange(0, i + 1));
            assert(next.drop_last() =~= prev);
            assert(next.last() == m@);
            assert(next.len() == i + 1);
            if i == 0 {
                assert(next[0] == m@);
            }
        }
        i = i + 1;
    }
    assert(messages@.subrange(0, i as int) =~= messages@);
    out
}

/// Composing a reply is deterministic: two replies composed from the same snapshot
/// for the same requester are identical.
pub proof fn lemma_compose_idempotent(
    snapshot: Seq<MessageView>,
    requester: Seq<char>,
    first: Seq<char>,
    second: Seq<char>,
)
    requires
        first == response_text(snapshot, requester),
        second == response_text(snapshot, requester),
    ensures
        first == second,
{
}

/// Each message as its sender wrote it, `username: content`, joined by newlines.
pub open spec fn plain_text(ms: Seq<MessageView>) -> Seq<char>
    decreases ms.len(),
{
    if ms.len() == 0 {
        Seq::empty()
    } else if ms.len() == 1 {
        ms[0].username + ": "@ + ms[0].content
    } else {
        plain_text(ms.drop_last()) + "\n"@ + ms.last().username + ": "@ + ms.last().content
    }
}

/// A requester who wrote none of the stored messages gets them back unmodified.
pub proof fn lemma_reply_to_stranger(ms: Seq<MessageView>, requester: Seq<char>)
    requires
        forall|i: int| 0 <= i < ms.len() ==> ms[i].username != requester,
    ensures
        response_text(ms, requester) == plain_text(ms),
    decreases ms.len(),
{
    if ms.len() > 1 {
        lemma_reply_to_stranger(ms.drop_last(), requester);
        assert(ms.last().username != requester);
        assert(response_text(ms, requester) =~= plain_text(ms));
    } else if ms.len() == 1 {
        assert(ms[0].username != requester);
        assert(response_text(ms, requester) =~= plain_text(ms));
    }
}

} // verus!
