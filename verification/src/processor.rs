//! The message processor, written as an explicit state machine: each step
//! takes the outcome of the last outbound call and decides the next outbound
//! action. The driver performs the actions (database writes, role grants,
//! chat replies) and feeds the outcomes back in.

use crate::config::GuildConfig;
use crate::forms::{parse_manual_review, parse_manual_spec, parse_registration,
    parse_registration_spec};
use crate::{MessageModel, QueuedMessage};
use vstd::prelude::*;

verus! {

/// The kinds of reply the bot sends to the submitting user.
#[derive(Debug, Clone, Copy, PartialEq, Eq, Structural)]
pub enum ReplyKind {
    /// The registration could not be stored.
    StorageError,
    /// The registration was stored and the advanced role granted.
    RegistrationComplete,
    /// The manual-review request was forwarded to the administrators.
    ManualReviewSubmitted,
}

/// One outbound operation the processor asks its driver to perform.
#[derive(Debug, Clone, PartialEq, Eq)]
pub enum Action {
    /// Nothing outbound; processing of this message is over.
    Done,
    /// Insert one registration row.
    SaveRegistration { guild_id: u64, name: String, age: String },
    /// Grant the role to the member in the guild.
    GrantRole { guild_id: u64, user_id: u64, role_id: u64 },
    /// Post a manual-review alert, mentioning the admin role, in the admin
    /// notification channel.
    PostAlert { channel_id: u64, admin_role: u64, excerpt: String },
    /// Send the given reply in the channel the message came from.
    Reply { channel_id: u64, kind: ReplyKind },
    /// Record a failure for the operator; nothing user-visible.
    LogFailure,
}

/// The mathematical model of an [`Action`]: its strings as sequences of
/// characters.
pub enum ActionModel {
    Done,
    SaveRegistration { guild_id: u64, name: Seq<char>, age: Seq<char> },
    GrantRole { guild_id: u64, user_id: u64, role_id: u64 },
    PostAlert { channel_id: u64, admin_role: u64, excerpt: Seq<char> },
    Reply { channel_id: u64, kind: ReplyKind },
    LogFailure,
}

impl View for Action {
    type V = ActionModel;

    open spec fn view(&self) -> ActionModel {
        match self {
            Action::Done => ActionModel::Done,
            Action::SaveRegistration { guild_id, name, age } => ActionModel::SaveRegistration {
                guild_id: *guild_id,
                name: name@,
                age: age@,
            },
            Action::GrantRole { guild_id, user_id, role_id } => ActionModel::GrantRole {
                guild_id: *guild_id,
                user_id: *user_id,
                role_id: *role_id,
            },
            Action::PostAlert { channel_id, admin_role, excerpt } => ActionModel::PostAlert {
                channel_id: *channel_id,
                admin_role: *admin_role,
                excerpt: excerpt@,
            },
            Action::Reply { channel_id, kind } => ActionModel::Reply {
                channel_id: *channel_id,
                kind: *kind,
            },
            Action::LogFailure => ActionModel::LogFailure,
        }
    }
}

/// Where the processing of one message stands, between outbound calls.
#[derive(Debug, Clone, Copy, PartialEq, Eq, Structural)]
pub enum ProcState {
    /// A registration row is being written; on success the advanced role is
    /// granted to the author.
    AwaitSave { channel_id: u64, guild_id: u64, author_id: u64, advanced_role: u64 },
    /// The advanced role is being granted; only its success earns the
    /// confirmation reply.
    AwaitGrant { channel_id: u64 },
    /// The admin alert is being posted; only its success earns the
    /// confirmation reply.
    AwaitAlert { channel_id: u64 },
    /// Nothing is left to do for this message.
    Finished,
}

/// The first transition: routing one dequeued message by its guild's config.
/// A guild without a config row, an unmatched channel, and a form that does
/// not parse all end processing at once, with no outbound call.
pub open spec fn spec_begin(m: MessageModel, config: Option<GuildConfig>) -> (ProcState,
    ActionModel) {
    match config {
        None => (ProcState::Finished, ActionModel::Done),
        Some(c) => {
            if m.channel_id == c.registration_channel {
                match parse_registration_spec(m.content) {
                    Some(fields) => (
                        ProcState::AwaitSave {
                            channel_id: m.channel_id,
                            guild_id: m.guild_id,
                            author_id: m.author_id,
                            advanced_role: c.advanced_role,
                        },
                        ActionModel::SaveRegistration {
                            guild_id: m.guild_id,
                            name: fields.0,
                            age: fields.1,
                        },
                    ),
                    None => (ProcState::Finished, ActionModel::Done),
                }
            } else if m.channel_id == c.manual_channel {
                match parse_manual_spec(m.content) {
                    Some(data) => (
                        ProcState::AwaitAlert { channel_id: m.channel_id },
                        ActionModel::PostAlert {
                            channel_id: c.admin_channel,
                            admin_role: c.admin_role,
                            excerpt: data,
                        },
                    ),
                    None => (ProcState::Finished, ActionModel::Done),
                }
            } else {
                (ProcState::Finished, ActionModel::Done)
            }
        },
    }
}

/// Every later transition: the outcome of the pending outbound call decides
/// the next action. A failed save is reported to the user; a failed role
/// grant or alert post is only logged; a finished message stays finished.
pub open spec fn spec_step(s: ProcState, ok: bool) -> (ProcState, ActionModel) {
    match s {
        ProcState::AwaitSave { channel_id, guild_id, author_id, advanced_role } => {
            if ok {
                (
                    ProcState::AwaitGrant { channel_id },
                    ActionModel::GrantRole { guild_id, user_id: author_id, role_id: advanced_role },
                )
            } else {
                (
                    ProcState::Finished,
                    ActionModel::Reply { channel_id, kind: ReplyKind::StorageError },
                )
            }
        },
        ProcState::AwaitGrant { channel_id } => {
            if ok {
                (
                    ProcState::Finished,
                    ActionModel::Reply { channel_id, kind: ReplyKind::RegistrationComplete },
                )
            } else {
                (ProcState::Finished, ActionModel::LogFailure)
            }
        },
        ProcState::AwaitAlert { channel_id } => {
            if ok {
                (
                    ProcState::Finished,
                    ActionModel::Reply { channel_id, kind: ReplyKind::ManualReviewSubmitted },
                )
            } else {
                (ProcState::Finished, ActionModel::LogFailure)
            }
        },
        ProcState::Finished => (ProcState::Finished, ActionModel::Done),
    }
}

/// Starts processing one dequeued message; see [`spec_begin`].
pub fn begin_message(msg: &QueuedMessage, config: &Option<GuildConfig>) -> (r: (ProcState, Action))
    ensures
        (r.0, r.1@) == spec_begin(msg@, *config),
{
    match config {
        None => (ProcState::Finished, Action::Done),
        Some(c) => {
            if msg.channel_id == c.registration_channel {
                match parse_registration(msg.content.as_str()) {
                    Some((name, age)) => (
                        ProcState::AwaitSave {
                            channel_id: msg.channel_id,
                            guild_id: msg.guild_id,
                            author_id: msg.author_id,
                            advanced_role: c.advanced_role,
                        },
                        Action::SaveRegistration { guild_id: msg.guild_id, name, age },
                    ),
                    None => (ProcState::Finished, Action::Done),
                }
            } else if msg.channel_id == c.manual_channel {
                match parse_manual_review(msg.content.as_str()) {
                    Some(data) => (
                        ProcState::AwaitAlert { channel_id: msg.channel_id },
                        Action::PostAlert {
                            channel_id: c.admin_channel,
                            admin_role: c.admin_role,
                            excerpt: data,
                        },
                    ),
                    None => (ProcState::Finished, Action::Done),
                }
            } else {
                (ProcState::Finished, Action::Done)
            }
        },
    }
}

/// Feeds the outcome of the pending outbound call back in; see [`spec_step`].
pub fn step(state: ProcState, ok: bool) -> (r: (ProcState, Action))
    ensures
        (r.0, r.1@) == spec_step(state, ok),
{
    match state {
        ProcState::AwaitSave { channel_id, guild_id, author_id, advanced_role } => {
            if ok {
                (
                    ProcState::AwaitGrant { channel_id },
                    Action::GrantRole { guild_id, user_id: author_id, role_id: advanced_role },
                )
            } else {
                (ProcState::Finished, Action::Reply { channel_id, kind: ReplyKind::StorageError })
            }
        },
        ProcState::AwaitGrant { channel_id } => {
            if ok {
                (
                    ProcState::Finished,
                    Action::Reply { channel_id, kind: ReplyKind::RegistrationComplete },
                )
            } else {
                (ProcState::Finished, Action::LogFailure)
            }
        },
        ProcState::AwaitAlert { channel_id } => {
            if ok {
                (
                    ProcState::Finished,
                    Action::Reply { channel_id, kind: ReplyKind::ManualReviewSubmitted },
                )
            } else {
                (ProcState::Finished, Action::LogFailure)
            }
        },
        ProcState::Finished => (ProcState::Finished, Action::Done),
    }
}

/// Law: a message of a guild with no config row is dropped whole — the
/// processor finishes at once, with no outbound call and nothing written.
pub proof fn lemma_no_config_no_effect(m: MessageModel)
    ensures
        spec_begin(m, None::<GuildConfig>) == (ProcState::Finished, ActionModel::Done),
        forall|b: bool| #[trigger] spec_step(ProcState::Finished, b) == (
            ProcState::Finished,
            ActionModel::Done,
        ),
{
}

/// Law: a registration-channel message that parses, whose save succeeds,
/// leads to exactly one role-grant attempt; the confirmation reply is sent
/// exactly when that grant succeeds, and a failed grant leaves the user with
/// no reply at all — only an operator log. Once finished, no further grant
/// or reply can follow.
pub proof fn lemma_registration_flow(m: MessageModel, c: GuildConfig, grant_ok: bool)
    requires
        m.channel_id == c.registration_channel,
        parse_registration_spec(m.content) is Some,
    ensures
        ({
            let (s1, a1) = spec_begin(m, Some(c));
            let (s2, a2) = spec_step(s1, true);
            let (s3, a3) = spec_step(s2, grant_ok);
            &&& a1 == (ActionModel::SaveRegistration {
                guild_id: m.guild_id,
                name: parse_registration_spec(m.content).unwrap().0,
                age: parse_registration_spec(m.content).unwrap().1,
            })
            &&& a2 == (ActionModel::GrantRole {
                guild_id: m.guild_id,
                user_id: m.author_id,
                role_id: c.advanced_role,
            })
            &&& s3 == ProcState::Finished
            &&& (grant_ok ==> a3 == (ActionModel::Reply {
                channel_id: m.channel_id,
                kind: ReplyKind::RegistrationComplete,
            }))
            &&& (!grant_ok ==> a3 == ActionModel::LogFailure)
            &&& (forall|b: bool| #[trigger] spec_step(s3, b) == (
                ProcState::Finished,
                ActionModel::Done,
            ))
        }),
{
}

} // verus!
