//! The administrator command that writes a guild's configuration, and the
//! dispatcher's routing of inbound messages: ignore, command, or enqueue.

use crate::config::GuildConfig;
use crate::text::{has_prefix, is_u64_token, parse_u64, split_whitespace, split_ws,
    starts_with_str, u64_token_val};
use vstd::prelude::*;

verus! {

/// The command literal that opens a config command.
pub open spec fn setconfig_prefix() -> Seq<char> {
    seq!['!', 's', 'e', 't', 'c', 'o', 'n', 'f', 'i', 'g']
}

/// How the dispatcher treats one inbound platform message.
#[derive(Debug, Clone, Copy, PartialEq, Eq, Structural)]
pub enum MessageClass {
    /// A bot's message, or one outside any guild: dropped unseen.
    Ignored,
    /// A config command, handled directly.
    SetConfigCommand,
    /// Any other guild message: queued and processed.
    Enqueue,
}

/// Routing: bot authors and guildless messages are ignored; text opening
/// with the command literal is a config command; the rest is queued.
pub open spec fn spec_classify(author_is_bot: bool, from_guild: bool, content: Seq<
    char,
>) -> MessageClass {
    if author_is_bot || !from_guild {
        MessageClass::Ignored
    } else if has_prefix(content, setconfig_prefix()) {
        MessageClass::SetConfigCommand
    } else {
        MessageClass::Enqueue
    }
}

/// Classifies one inbound message; see [`spec_classify`].
pub fn classify_message(author_is_bot: bool, from_guild: bool, content: &str) -> (r: MessageClass)
    ensures
        r == spec_classify(author_is_bot, from_guild, content@),
{
    if author_is_bot || !from_guild {
        return MessageClass::Ignored;
    }
    proof {
        reveal_strlit("!setconfig");
        assert("!setconfig"@ =~= setconfig_prefix());
    }
    if starts_with_str(content, "!setconfig") {
        MessageClass::SetConfigCommand
    } else {
        MessageClass::Enqueue
    }
}

/// What a config command comes to.
#[derive(Debug, Clone, Copy, PartialEq, Eq, Structural)]
pub enum SetConfigOutcome {
    /// The invoker is no administrator: refused, with a reply, and nothing
    /// written.
    PermissionDenied,
    /// Not exactly five arguments after the command word: refused with a
    /// usage reply.
    UsageError,
    /// An argument is no unsigned 64-bit integer: refused; the failure is
    /// logged, not replied.
    InvalidArgument,
    /// The config to write for the guild, in command order.
    Apply { config: GuildConfig },
}

/// The config command's meaning. The administrator check comes first; then
/// the text must split into exactly six whitespace-separated tokens (the
/// command word and five ids); then each id must parse as an unsigned 64-bit
/// integer. The five ids name the registration, manual and admin channels,
/// then the admin and advanced roles.
pub open spec fn spec_setconfig(content: Seq<char>, invoker_is_admin: bool) -> SetConfigOutcome {
    if !invoker_is_admin {
        SetConfigOutcome::PermissionDenied
    } else {
        let toks = split_ws(content);
        if toks.len() != 6 {
            SetConfigOutcome::UsageError
        } else if !(is_u64_token(toks[1]) && is_u64_token(toks[2]) && is_u64_token(toks[3])
            && is_u64_token(toks[4]) && is_u64_token(toks[5])) {
            SetConfigOutcome::InvalidArgument
        } else {
            SetConfigOutcome::Apply {
                config: GuildConfig {
                    registration_channel: u64_token_val(toks[1]) as u64,
                    manual_channel: u64_token_val(toks[2]) as u64,
                    admin_channel: u64_token_val(toks[3]) as u64,
                    admin_role: u64_token_val(toks[4]) as u64,
                    advanced_role: u64_token_val(toks[5]) as u64,
                },
            }
        }
    }
}

/// Handles a config command; see [`spec_setconfig`]. The caller looks the
/// invoker's administrator permission up and, on `Apply`, upserts the config
/// for the guild the message came from.
pub fn handle_setconfig(content: &str, invoker_is_admin: bool) -> (r: SetConfigOutcome)
    ensures
        r == spec_setconfig(content@, invoker_is_admin),
{
    if !invoker_is_admin {
        return SetConfigOutcome::PermissionDenied;
    }
    let toks = split_whitespace(content);
    proof {
        assert(forall|k: int|
            0 <= k < toks@.len() ==> #[trigger] split_ws(content@)[k] == toks@[k]@);
    }
    if toks.len() != 6 {
        return SetConfigOutcome::UsageError;
    }
    let registration_channel = match parse_u64(toks[1].as_str()) {
        Some(v) => v,
        None => {
            return SetConfigOutcome::InvalidArgument;
        },
    };
    let manual_channel = match parse_u64(toks[2].as_str()) {
        Some(v) => v,
        None => {
            return SetConfigOutcome::InvalidArgument;
        },
    };
    let admin_channel = match parse_u64(toks[3].as_str()) {
        Some(v) => v,
        None => {
            return SetConfigOutcome::InvalidArgument;
        },
    };
    let admin_role = match parse_u64(toks[4].as_str()) {
        Some(v) => v,
        None => {
            return SetConfigOutcome::InvalidArgument;
        },
    };
    let advanced_role = match parse_u64(toks[5].as_str()) {
        Some(v) => v,
        None => {
            return SetConfigOutcome::InvalidArgument;
        },
    };
    SetConfigOutcome::Apply {
        config: GuildConfig {
            registration_channel,
            manual_channel,
            admin_channel,
            admin_role,
            advanced_role,
        },
    }
}

} // verus!
