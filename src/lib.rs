//! A minimal text chat relay: the line protocol, the bounded message store,
//! the response composer and the reap-and-dispatch decisions of the server.

pub mod address;
pub mod client;
pub mod compose;
pub mod failure;
pub mod message;
pub mod protocol;
pub mod store;
pub mod tracker;

pub use address::listen_address;
pub use client::Client;
pub use compose::compose_response;
pub use failure::{ErrorKind, IoFailure};
pub use message::Message;
pub use protocol::{parse_line, read_message, reply_for, settle, HandlerOutcome};
pub use store::{MessageStore, CAPACITY};
pub use tracker::{TaskPoll, TaskTracker};
