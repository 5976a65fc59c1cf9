//! A guild registration bot library: form parsing, per-guild configuration,
//! a bounded in-process message queue, and the decision logic that routes
//! queued messages and administrator commands.

pub mod command;
pub mod config;
pub mod forms;
pub mod processor;
pub mod queue;
pub mod registrations;
pub mod text;

use vstd::prelude::*;

verus! {

/// One inbound guild message, as accepted into the queue.
#[derive(Debug, Clone, PartialEq, Eq)]
pub struct QueuedMessage {
    pub guild_id: u64,
    pub channel_id: u64,
    pub content: String,
    pub author_id: u64,
}

/// The mathematical model of a queued message: its text as a sequence of
/// characters.
pub struct MessageModel {
    pub guild_id: u64,
    pub channel_id: u64,
    pub content: Seq<char>,
    pub author_id: u64,
}

impl View for QueuedMessage {
    type V = MessageModel;

    open spec fn view(&self) -> MessageModel {
        MessageModel {
            guild_id: self.guild_id,
            channel_id: self.channel_id,
            content: self.content@,
            author_id: self.author_id,
        }
    }
}

} // verus!
