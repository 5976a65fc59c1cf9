//! The dispatcher's routing, the config command, and the processor's
//! per-message state machine, traced on concrete scenarios.

use regbot::command::{classify_message, handle_setconfig, MessageClass, SetConfigOutcome};
use regbot::config::GuildConfig;
use regbot::processor::{begin_message, step, Action, ProcState, ReplyKind};
use regbot::QueuedMessage;

fn cfg() -> GuildConfig {
    GuildConfig {
        registration_channel: 10,
        manual_channel: 11,
        admin_channel: 12,
        admin_role: 13,
        advanced_role: 14,
    }
}

fn msg(channel_id: u64, content: &str) -> QueuedMessage {
    QueuedMessage {
        guild_id: 1,
        channel_id,
        content: content.to_string(),
        author_id: 100,
    }
}

#[test]
fn classify_routes() {
    assert_eq!(classify_message(true, true, "hello"), MessageClass::Ignored);
    assert_eq!(classify_message(false, false, "hello"), MessageClass::Ignored);
    assert_eq!(
        classify_message(false, true, "!setconfig 1 2 3 4 5"),
        MessageClass::SetConfigCommand
    );
    // The dispatcher matches the prefix only; the handler sorts the rest out.
    assert_eq!(
        classify_message(false, true, "!setconfigged"),
        MessageClass::SetConfigCommand
    );
    assert_eq!(classify_message(false, true, "hello"), MessageClass::Enqueue);
}

#[test]
fn setconfig_denied_for_non_admin() {
    assert_eq!(
        handle_setconfig("!setconfig 1 2 3 4 5", false),
        SetConfigOutcome::PermissionDenied
    );
}

#[test]
fn setconfig_applies_for_admin() {
    assert_eq!(
        handle_setconfig("!setconfig 1 2 3 4 5", true),
        SetConfigOutcome::Apply {
            config: GuildConfig {
                registration_channel: 1,
                manual_channel: 2,
                admin_channel: 3,
                admin_role: 4,
                advanced_role: 5,
            }
        }
    );
}

#[test]
fn setconfig_wrong_arity() {
    assert_eq!(
        handle_setconfig("!setconfig 1 2 3 4", true),
        SetConfigOutcome::UsageError
    );
    assert_eq!(
        handle_setconfig("!setconfig 1 2 3 4 5 6", true),
        SetConfigOutcome::UsageError
    );
}

#[test]
fn setconfig_unicode_separators() {
    // Arguments may be separated by any Unicode whitespace.
    assert_eq!(
        handle_setconfig("!setconfig\u{3000}1\u{a0}2 3\u{2009}4 5", true),
        SetConfigOutcome::Apply {
            config: GuildConfig {
                registration_channel: 1,
                manual_channel: 2,
                admin_channel: 3,
                admin_role: 4,
                advanced_role: 5,
            }
        }
    );
}

#[test]
fn setconfig_non_numeric_argument() {
    assert_eq!(
        handle_setconfig("!setconfig 1 2 x 4 5", true),
        SetConfigOutcome::InvalidArgument
    );
    assert_eq!(
        handle_setconfig("!setconfig 1 2 3 4 18446744073709551616", true),
        SetConfigOutcome::InvalidArgument
    );
}

#[test]
fn no_config_drops_message() {
    let (state, action) = begin_message(&msg(10, "Name: A, Age: 1"), &None);
    assert_eq!(state, ProcState::Finished);
    assert_eq!(action, Action::Done);
}

#[test]
fn unmatched_channel_drops_message() {
    let (state, action) = begin_message(&msg(99, "Name: A, Age: 1"), &Some(cfg()));
    assert_eq!(state, ProcState::Finished);
    assert_eq!(action, Action::Done);
}

#[test]
fn registration_parse_failure_is_silent() {
    let (state, action) = begin_message(&msg(10, "not a form"), &Some(cfg()));
    assert_eq!(state, ProcState::Finished);
    assert_eq!(action, Action::Done);
}

#[test]
fn registration_flow_grant_success() {
    let (s1, a1) = begin_message(&msg(10, "Name: Alice, Age: 30"), &Some(cfg()));
    assert_eq!(
        a1,
        Action::SaveRegistration {
            guild_id: 1,
            name: "Alice".to_string(),
            age: "30".to_string(),
        }
    );
    // The save succeeded: exactly one role grant follows.
    let (s2, a2) = step(s1, true);
    assert_eq!(
        a2,
        Action::GrantRole {
            guild_id: 1,
            user_id: 100,
            role_id: 14,
        }
    );
    // The grant succeeded: the one confirmation reply, then nothing more.
    let (s3, a3) = step(s2, true);
    assert_eq!(s3, ProcState::Finished);
    assert_eq!(
        a3,
        Action::Reply {
            channel_id: 10,
            kind: ReplyKind::RegistrationComplete,
        }
    );
    assert_eq!(step(s3, true), (ProcState::Finished, Action::Done));
    assert_eq!(step(s3, false), (ProcState::Finished, Action::Done));
}

#[test]
fn registration_flow_grant_failure_logs_only() {
    let (s1, _) = begin_message(&msg(10, "Name: Alice, Age: 30"), &Some(cfg()));
    let (s2, _) = step(s1, true);
    let (s3, a3) = step(s2, false);
    assert_eq!(s3, ProcState::Finished);
    assert_eq!(a3, Action::LogFailure);
}

#[test]
fn registration_flow_save_failure_replies_error() {
    let (s1, _) = begin_message(&msg(10, "Name: Alice, Age: 30"), &Some(cfg()));
    let (s2, a2) = step(s1, false);
    assert_eq!(s2, ProcState::Finished);
    assert_eq!(
        a2,
        Action::Reply {
            channel_id: 10,
            kind: ReplyKind::StorageError,
        }
    );
}

#[test]
fn manual_review_flow() {
    let (s1, a1) = begin_message(&msg(11, "Manual: needs review"), &Some(cfg()));
    assert_eq!(
        a1,
        Action::PostAlert {
            channel_id: 12,
            admin_role: 13,
            excerpt: "needs review".to_string(),
        }
    );
    // The alert was posted: confirm to the submitter in the manual channel.
    let (s2, a2) = step(s1, true);
    assert_eq!(s2, ProcState::Finished);
    assert_eq!(
        a2,
        Action::Reply {
            channel_id: 11,
            kind: ReplyKind::ManualReviewSubmitted,
        }
    );
}

#[test]
fn manual_review_alert_failure_logs_only() {
    let (s1, _) = begin_message(&msg(11, "Manual: needs review"), &Some(cfg()));
    let (s2, a2) = step(s1, false);
    assert_eq!(s2, ProcState::Finished);
    assert_eq!(a2, Action::LogFailure);
}

#[test]
fn manual_review_parse_failure_is_silent() {
    let (state, action) = begin_message(&msg(11, "manual: x"), &Some(cfg()));
    assert_eq!(state, ProcState::Finished);
    assert_eq!(action, Action::Done);
}
