use vstd::prelude::*;

verus! {

/// What a stored message is: who sent it and what they wrote.
pub struct MessageView {
    pub username: Seq<char>,
    pub content: Seq<char>,
}

/// A chat message together with the user who sent it. Immutable once created.
#[derive(Debug)]
pub struct Message {
    username: String,
    message: String,
}

impl View for Message {
    type V = MessageView;

    closed spec fn view(&self) -> MessageView {
        MessageView { username: self.username@, content: self.message@ }
    }
}

impl Message {
    /// Creates a new message.
    pub fn new(username: String, message: String) -> (r: Message)
        ensures
            r@ == (MessageView { username: username@, content: message@ }),
    {
        Message { username, message }
    }

    /// Returns the username of the user who sent it.
    pub fn username(&self) -> (r: &str)
        ensures
            r@ == self@.username,
    {
        self.username.as_str()
    }

    /// Returns the message content.
    pub fn message(&self) -> (r: &str)
        ensures
            r@ == self@.content,
    {
        self.message.as_str()
    }

    /// Tells whether this message was sent by `username`.
    pub fn is_from(&self, username: &String) -> (r: bool)
        ensures
            r == (self@.username == username@),
    {
        self.username == *username
    }

    /// Returns an independent copy of this message.
    pub fn duplicate(&self) -> (r: Message)
        ensures
            r@ == self@,
    {
        Message { username: self.username.clone(), message: self.message.clone() }
    }
}

/// The plain values of a sequence of messages.
pub open spec fn views(ms: Seq<Message>) -> Seq<MessageView> {
    ms.map_values(|m: Message| m@)
}

} // verus!
