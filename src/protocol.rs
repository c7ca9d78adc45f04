use vstd::prelude::*;

use crate::failure::{ErrorKind, IoFailure};
use crate::compose::{compose_response, response_text};
use crate::message::{views, Message, MessageView};

verus! {

/// What one handler task ends with.
#[derive(Debug)]
pub enum HandlerOutcome {
    /// The connection ended before a line arrived.
    NothingReceived,
    /// The line held no `": "` separator, so no username could be taken from it.
    NoUsername,
    /// A fetch-only request from the named user.
    NoMessage(String),
    /// A message to be stored.
    Message(Message),
    /// Reading or writing the connection failed.
    Error(IoFailure),
}

/// What a handler outcome is, as plain values.
pub enum OutcomeView {
    NothingReceived,
    NoUsername,
    NoMessage(Seq<char>),
    Message(MessageView),
    Error(ErrorKind, Seq<char>),
}

impl View for HandlerOutcome {
    type V = OutcomeView;

    open spec fn view(&self) -> OutcomeView {
        match self {
            HandlerOutcome::NothingReceived => OutcomeView::NothingReceived,
            HandlerOutcome::NoUsername => OutcomeView::NoUsername,
            HandlerOutcome::NoMessage(u) => OutcomeView::NoMessage(u@),
            HandlerOutcome::Message(m) => OutcomeView::Message(m@),
            HandlerOutcome::Error(f) => OutcomeView::Error(f.kind, f.detail@),
        }
    }
}

/// The separator `": "` starts at index `i` of `s`.
pub open spec fn separator_at(s: Seq<char>, i: int) -> bool {
    0 <= i && i + 1 < s.len() && s[i] == ':' && s[i + 1] == ' '
}

/// `s` holds the separator somewhere.
pub open spec fn has_separator(s: Seq<char>) -> bool {
    exists|i: int| separator_at(s, i)
}

/// `k` is where the first separator of `s` starts.
pub open spec fn is_first_separator(s: Seq<char>, k: int) -> bool {
    separator_at(s, k) && forall|j: int| 0 <= j < k ==> !separator_at(s, j)
}

/// Where the first separator of `s` starts (meaningful when `has_separator(s)`).
pub open spec fn first_separator(s: Seq<char>) -> int {
    choose|k: int| is_first_separator(s, k)
}

/// The outcome of a received line: empty means nothing was received; otherwise the
/// username is what precedes the first separator and the content all that follows it.
pub open spec fn parsed(s: Seq<char>) -> OutcomeView {
    if s.len() == 0 {
        OutcomeView::NothingReceived
    } else if !has_separator(s) {
        OutcomeView::NoUsername
    } else {
        let k = first_separator(s);
        let username = s.subrange(0, k);
        let content = s.subrange(k + 2, s.len() as int);
        if content.len() == 0 {
            OutcomeView::NoMessage(username)
        } else {
            OutcomeView::Message(MessageView { username, content })
        }
    }
}

proof fn lemma_first_separator_unique(s: Seq<char>, k: int)
    requires
        is_first_separator(s, k),
    ensures
        has_separator(s),
        first_separator(s) == k,
{
    let c = first_separator(s);
    assert(is_first_separator(s, c));
    if c < k {
        assert(!separator_at(s, c));
    } else if k < c {
        assert(!separator_at(s, k));
    }
}

/// Finds where the first separator of `line` starts, if it has one.
fn find_separator(line: &str) -> (r: Option<usize>)
    ensures
        match r {
            Some(k) => is_first_separator(line@, k as int),
            None => !has_separator(line@),
        },
{
    let n: usize = line.unicode_len();
    let mut i: usize = 0;
    while i < n
        invariant
            n == line@.len(),
            i <= n,
            forall|j: int| 0 <= j < i ==> !separator_at(line@, j),
        decreases n - i,
    {
        if i + 1 < n && line.get_char(i) == ':' && line.get_char(i + 1) == ' ' {
            return Some(i);
        }
        i = i + 1;
    }
    assert forall|j: int| !separator_at(line@, j) by {
        if 0 <= j < i {
        }
    }
    None
}

/// Parses one received line into the outcome it asks for.
pub fn parse_line(line: &str) -> (r: HandlerOutcome)
    ensures
        r@ == parsed(line@),
{
    let n: usize = line.unicode_len();
    if n == 0 {
        return HandlerOutcome::NothingReceived;
    }
    match find_separator(line) {
        None => HandlerOutcome::NoUsername,
        Some(k) => {
            proof {
                lemma_first_separator_unique(line@, k as int);
            }
            let username = line.substring_char(0, k).to_owned();
            let content = line.substring_char(k + 2, n).to_owned();
            if content.unicode_len() == 0 {
                HandlerOutcome::NoMessage(username)
            } else {
                HandlerOutcome::Message(Message::new(username, content))
            }
        }
    }
}

/// The outcome of one attempt to read a line: a failure, the end of the stream
/// before any line, or the parsed line.
pub open spec fn received_outcome(received: Result<Option<String>, IoFailure>) -> OutcomeView {
    match received {
        Err(f) => OutcomeView::Error(f.kind, f.detail@),
        Ok(None) => OutcomeView::NothingReceived,
        Ok(Some(line)) => parsed(line@),
    }
}

/// Turns what reading one line from a connection gave into the handler's outcome.
pub fn read_message(received: Result<Option<String>, IoFailure>) -> (r: HandlerOutcome)
    ensures
        r@ == received_outcome(received),
{
    match received {
        Err(f) => HandlerOutcome::Error(f),
        Ok(None) => HandlerOutcome::NothingReceived,
        Ok(Some(line)) => parse_line(line.as_str()),
    }
}

/// What a handler writes back for a request without a username.
pub open spec fn diagnostic_text() -> Seq<char> {
    "Received an empty message!"@
}

/// What a handler writes back before closing the connection, given the outcome of
/// the request and its snapshot: the diagnostic for a line without a username,
/// the history as seen by the requester for a message or a fetch-only request,
/// and nothing otherwise.
pub open spec fn reply_text(o: OutcomeView, snapshot: Seq<MessageView>) -> Option<Seq<char>> {
    match o {
        OutcomeView::NoUsername => Some(diagnostic_text()),
        OutcomeView::NoMessage(u) => Some(response_text(snapshot, u)),
        OutcomeView::Message(m) => Some(response_text(snapshot, m.username)),
        _ => None,
    }
}

/// Computes the reply that a handler writes for `outcome` from its `snapshot`.
pub fn reply_for(outcome: &HandlerOutcome, snapshot: &Vec<Message>) -> (r: Option<String>)
    ensures
        reply_text(outcome@, views(snapshot@)) == match r {
            Some(s) => Some(s@),
            None => None::<Seq<char>>,
        },
{
    match outcome {
        HandlerOutcome::NoUsername => Some(String::from_str("Received an empty message!")),
        HandlerOutcome::NoMessage(u) => Some(compose_response(snapshot, u.as_str())),
        HandlerOutcome::Message(m) => Some(compose_response(snapshot, m.username())),
        _ => None,
    }
}

/// The final outcome of a handler: a failed write of the reply replaces what was
/// parsed; otherwise the parsed outcome stands.
pub fn settle(outcome: HandlerOutcome, written: Result<(), IoFailure>) -> (r: HandlerOutcome)
    ensures
        r@ == match written {
            Err(f) => OutcomeView::Error(f.kind, f.detail@),
            Ok(()) => outcome@,
        },
{
    match written {
        Err(f) => HandlerOutcome::Error(f),
        Ok(()) => outcome,
    }
}

} // verus!
