//! A message board served by one named, single-writer actor.
//!
//! `message` holds the data model, `chatroom` the actor's state machine,
//! `codec` the JSON framing of requests and replies, `directory` the
//! name-to-actor addressing and in-process transport, and `edge` the
//! stateless request handlers that funnel every call into one actor.
pub mod message;
pub mod chatroom;
pub mod codec;
pub mod directory;
pub mod edge;
