//! The per-invocation state machine shared by the three subcommands.
//!
//! One slash-command invocation runs: permission gate, backend call, outcome
//! interpretation, then (on success) the side effects — direct message,
//! confirmations, role sync. The embedding program performs each emitted
//! `Effect` and feeds the next `Event` back in; `step` alone decides what
//! happens next, so every decision of a handler is verified here.
use vstd::prelude::*;
use crate::messages::Message;
use crate::outcome::BackendOutcome;
use crate::outcome::Subcommand;

verus! {

/// Terminal state of one invocation.
#[derive(Clone, Copy, PartialEq, Eq, Structural, Debug)]
pub enum Terminal {
    /// The actor lacked the giver role; nothing was called.
    Denied,
    /// Transport failure or unexpected status; nothing was changed visibly.
    Failed,
    /// The backend reported the semantic conflict for this subcommand.
    Conflict,
    /// `add` ran to completion on a backend success.
    Added,
    /// `remove` ran to completion on a backend success.
    Removed,
    /// `get` delivered the fetched key.
    Fetched,
}

/// State of one invocation between events.
#[derive(Clone, PartialEq, Eq, Debug)]
pub enum State {
    /// The invocation has just arrived; the permission gate answers next.
    Start,
    /// The actor is permitted; the backend call is outstanding.
    Calling,
    /// `add` only: the backend issued this key and the direct message to the
    /// target is being attempted.
    AwaitingDm(String),
    /// `add`/`remove`: the role toggle on the target is being attempted.
    AwaitingRoleSync,
    /// The invocation is over.
    Done(Terminal),
}

/// What the embedding program observed and hands back to the machine.
#[derive(Clone, PartialEq, Eq, Debug)]
pub enum Event {
    /// Result of the permission gate: whether the actor may proceed.
    GateChecked(bool),
    /// The backend call finished with this outcome.
    BackendReplied(BackendOutcome),
    /// The direct message to the target was attempted; `true` if delivered.
    DmAttempted(bool),
    /// The role toggle was attempted; `true` if it succeeded.
    RoleSyncAttempted(bool),
}

/// A log line the machine asks for. Keys appear in full only here, at info
/// level, paired with the target's identity, for audit purposes.
#[derive(Clone, PartialEq, Eq, Debug)]
pub enum LogEntry {
    /// The backend call itself failed; the payload is the transport error.
    TransportFailed(String),
    /// The backend answered with an unexpected status and this raw body.
    UnexpectedStatus(u16, String),
    /// The key could not be direct-messaged to the target.
    DmFailed,
    /// The role toggle on the target failed.
    RoleSyncFailed,
    /// Audit: this key was issued to this target.
    KeyIssued(u64, String),
    /// Audit: this target was removed from the program.
    UserRemoved(u64),
    /// Audit: this target's key was fetched.
    KeyFetched(u64, String),
}

/// How severe a log entry is.
#[derive(Clone, Copy, PartialEq, Eq, Structural, Debug)]
pub enum Severity {
    Info,
    Warning,
    Error,
}

/// The severity at which each entry is logged: failures of the call itself
/// at error level, side-effect failures only as warnings, audit lines at
/// info level.
pub open spec fn spec_severity(e: LogEntry) -> Severity {
    match e {
        LogEntry::TransportFailed(_) => Severity::Error,
        LogEntry::UnexpectedStatus(_, _) => Severity::Error,
        LogEntry::DmFailed => Severity::Warning,
        LogEntry::RoleSyncFailed => Severity::Warning,
        LogEntry::KeyIssued(_, _) => Severity::Info,
        LogEntry::UserRemoved(_) => Severity::Info,
        LogEntry::KeyFetched(_, _) => Severity::Info,
    }
}

/// The severity of a log entry.
pub fn severity(e: &LogEntry) -> (s: Severity)
    ensures
        s == spec_severity(*e),
{
    match e {
        LogEntry::TransportFailed(_) => Severity::Error,
        LogEntry::UnexpectedStatus(_, _) => Severity::Error,
        LogEntry::DmFailed => Severity::Warning,
        LogEntry::RoleSyncFailed => Severity::Warning,
        LogEntry::KeyIssued(_, _) => Severity::Info,
        LogEntry::UserRemoved(_) => Severity::Info,
        LogEntry::KeyFetched(_, _) => Severity::Info,
    }
}

/// An action the embedding program must perform on the machine's behalf.
#[derive(Clone, PartialEq, Eq, Debug)]
pub enum Effect {
    /// POST to the backend endpoint of the current subcommand.
    CallBackend,
    /// Reply visibly only to the invoking actor.
    EphemeralReply(Message),
    /// Reply publicly in the channel.
    Reply(Message),
    /// Direct-message the target user.
    SendDm(Message),
    /// Grant the beta role to the target.
    GrantRole,
    /// Revoke the beta role from the target.
    RevokeRole,
    /// Write a log line.
    Log(LogEntry),
}

/// How a backend outcome is interpreted once the call has returned: a
/// transport failure or unexpected status ends the invocation with the
/// generic error reply and a log line; a conflict ends it with the
/// subcommand's specific ephemeral message; a success starts the
/// subcommand's side effects.
pub open spec fn spec_interpret(cmd: Subcommand, target: u64, outcome: BackendOutcome) -> (
    State,
    Seq<Effect>,
) {
    match outcome {
        BackendOutcome::TransportError(msg) => (
            State::Done(Terminal::Failed),
            seq![
                Effect::Reply(Message::GenericError),
                Effect::Log(LogEntry::TransportFailed(msg)),
            ],
        ),
        BackendOutcome::Conflict => (
            State::Done(Terminal::Conflict),
            seq![
                Effect::EphemeralReply(
                    if cmd == Subcommand::Add {
                        Message::AlreadyEnrolled(target)
                    } else {
                        Message::NotEnrolled(target)
                    },
                ),
            ],
        ),
        BackendOutcome::UnexpectedStatus(code, body) => (
            State::Done(Terminal::Failed),
            seq![
                Effect::Reply(Message::UnexpectedStatus(code)),
                Effect::Log(LogEntry::UnexpectedStatus(code, body)),
            ],
        ),
        BackendOutcome::Success(body) => match cmd {
            Subcommand::Add => (
                State::AwaitingDm(body),
                seq![
                    Effect::Log(LogEntry::KeyIssued(target, body)),
                    Effect::SendDm(Message::KeyDm(body)),
                ],
            ),
            Subcommand::Remove => (
                State::AwaitingRoleSync,
                seq![
                    Effect::Log(LogEntry::UserRemoved(target)),
                    Effect::Reply(Message::RemovedConfirmation(target)),
                    Effect::RevokeRole,
                ],
            ),
            Subcommand::Get => (
                State::Done(Terminal::Fetched),
                seq![
                    Effect::Log(LogEntry::KeyFetched(target, body)),
                    Effect::EphemeralReply(Message::FetchedKey(target, body)),
                ],
            ),
        },
    }
}

/// One transition of the invocation machine. A denial ends the invocation
/// with exactly the ephemeral denial message; only a positive gate result
/// emits `CallBackend`. On an `add` success the direct message is attempted
/// first, then — whether or not it was delivered — the public confirmation
/// is posted and the role granted; a failed role sync is only logged and
/// the invocation still ends in its success terminal. An event that cannot
/// occur in the given state leaves the state unchanged and emits nothing.
pub open spec fn spec_step(cmd: Subcommand, target: u64, state: State, event: Event) -> (
    State,
    Seq<Effect>,
) {
    match (state, event) {
        (State::Start, Event::GateChecked(permitted)) => if permitted {
            (State::Calling, seq![Effect::CallBackend])
        } else {
            (
                State::Done(Terminal::Denied),
                seq![Effect::EphemeralReply(Message::NotPermitted)],
            )
        },
        (State::Calling, Event::BackendReplied(outcome)) => spec_interpret(cmd, target, outcome),
        (State::AwaitingDm(key), Event::DmAttempted(delivered)) => if cmd == Subcommand::Add {
            (
                State::AwaitingRoleSync,
                if delivered {
                    seq![Effect::Reply(Message::AddedConfirmation(target)), Effect::GrantRole]
                } else {
                    seq![
                        Effect::Log(LogEntry::DmFailed),
                        Effect::Reply(Message::DmFallback),
                        Effect::Reply(Message::AddedConfirmation(target)),
                        Effect::GrantRole,
                    ]
                },
            )
        } else {
            (State::AwaitingDm(key), Seq::<Effect>::empty())
        },
        (State::AwaitingRoleSync, Event::RoleSyncAttempted(ok)) => match cmd {
            Subcommand::Add => (
                State::Done(Terminal::Added),
                if ok {
                    Seq::<Effect>::empty()
                } else {
                    seq![Effect::Log(LogEntry::RoleSyncFailed)]
                },
            ),
            Subcommand::Remove => (
                State::Done(Terminal::Removed),
                if ok {
                    Seq::<Effect>::empty()
                } else {
                    seq![Effect::Log(LogEntry::RoleSyncFailed)]
                },
            ),
            Subcommand::Get => (State::AwaitingRoleSync, Seq::<Effect>::empty()),
        },
        (s, _) => (s, Seq::<Effect>::empty()),
    }
}

/// Run one transition and return the next state with the effects to
/// perform, in order.
pub fn step(cmd: Subcommand, target: u64, state: State, event: Event) -> (r: (State, Vec<Effect>))
    ensures
        r.0 == spec_step(cmd, target, state, event).0,
        r.1@ == spec_step(cmd, target, state, event).1,
{
    match (state, event) {
        (State::Start, Event::GateChecked(permitted)) => {
            let mut effects: Vec<Effect> = Vec::new();
            if permitted {
                effects.push(Effect::CallBackend);
                assert(effects@ =~= seq![Effect::CallBackend]);
                (State::Calling, effects)
            } else {
                effects.push(Effect::EphemeralReply(Message::NotPermitted));
                assert(effects@ =~= seq![Effect::EphemeralReply(Message::NotPermitted)]);
                (State::Done(Terminal::Denied), effects)
            }
        },
        (State::Calling, Event::BackendReplied(outcome)) => interpret(cmd, target, outcome),
        (State::AwaitingDm(key), Event::DmAttempted(delivered)) => {
            if cmd == Subcommand::Add {
                let mut effects: Vec<Effect> = Vec::new();
                if !delivered {
                    effects.push(Effect::Log(LogEntry::DmFailed));
                    effects.push(Effect::Reply(Message::DmFallback));
                }
                effects.push(Effect::Reply(Message::AddedConfirmation(target)));
                effects.push(Effect::GrantRole);
                assert(!delivered ==> effects@ =~= seq![
                    Effect::Log(LogEntry::DmFailed),
                    Effect::Reply(Message::DmFallback),
                    Effect::Reply(Message::AddedConfirmation(target)),
                    Effect::GrantRole,
                ]);
                assert(delivered ==> effects@ =~= seq![
                    Effect::Reply(Message::AddedConfirmation(target)),
                    Effect::GrantRole,
                ]);
                (State::AwaitingRoleSync, effects)
            } else {
                (State::AwaitingDm(key), Vec::new())
            }
        },
        (State::AwaitingRoleSync, Event::RoleSyncAttempted(ok)) => {
            match cmd {
                Subcommand::Add | Subcommand::Remove => {
                    let mut effects: Vec<Effect> = Vec::new();
                    if !ok {
                        effects.push(Effect::Log(LogEntry::RoleSyncFailed));
                        assert(effects@ =~= seq![Effect::Log(LogEntry::RoleSyncFailed)]);
                    }
                    let terminal = if cmd == Subcommand::Add {
                        Terminal::Added
                    } else {
                        Terminal::Removed
                    };
                    (State::Done(terminal), effects)
                },
                Subcommand::Get => (State::AwaitingRoleSync, Vec::new()),
            }
        },
        (s, _) => (s, Vec::new()),
    }
}

fn interpret(cmd: Subcommand, target: u64, outcome: BackendOutcome) -> (r: (State, Vec<Effect>))
    ensures
        r.0 == spec_interpret(cmd, target, outcome).0,
        r.1@ == spec_interpret(cmd, target, outcome).1,
{
    let mut effects: Vec<Effect> = Vec::new();
    match outcome {
        BackendOutcome::TransportError(msg) => {
            effects.push(Effect::Reply(Message::GenericError));
            effects.push(Effect::Log(LogEntry::TransportFailed(msg)));
            assert(effects@ =~= spec_interpret(cmd, target, outcome).1);
            (State::Done(Terminal::Failed), effects)
        },
        BackendOutcome::Conflict => {
            if cmd == Subcommand::Add {
                effects.push(Effect::EphemeralReply(Message::AlreadyEnrolled(target)));
            } else {
                effects.push(Effect::EphemeralReply(Message::NotEnrolled(target)));
            }
            assert(effects@ =~= spec_interpret(cmd, target, outcome).1);
            (State::Done(Terminal::Conflict), effects)
        },
        BackendOutcome::UnexpectedStatus(code, body) => {
            effects.push(Effect::Reply(Message::UnexpectedStatus(code)));
            effects.push(Effect::Log(LogEntry::UnexpectedStatus(code, body)));
            assert(effects@ =~= spec_interpret(cmd, target, outcome).1);
            (State::Done(Terminal::Failed), effects)
        },
        BackendOutcome::Success(body) => match cmd {
            Subcommand::Add => {
                effects.push(Effect::Log(LogEntry::KeyIssued(target, body.clone())));
                effects.push(Effect::SendDm(Message::KeyDm(body.clone())));
                assert(effects@ =~= spec_interpret(cmd, target, outcome).1);
                (State::AwaitingDm(body), effects)
            },
            Subcommand::Remove => {
                effects.push(Effect::Log(LogEntry::UserRemoved(target)));
                effects.push(Effect::Reply(Message::RemovedConfirmation(target)));
                effects.push(Effect::RevokeRole);
                assert(effects@ =~= spec_interpret(cmd, target, outcome).1);
                (State::AwaitingRoleSync, effects)
            },
            Subcommand::Get => {
                effects.push(Effect::Log(LogEntry::KeyFetched(target, body.clone())));
                effects.push(Effect::EphemeralReply(Message::FetchedKey(target, body)));
                assert(effects@ =~= spec_interpret(cmd, target, outcome).1);
                (State::Done(Terminal::Fetched), effects)
            },
        },
    }
}

/// Handle one event of an `add` invocation on the given target.
pub fn add(target: u64, state: State, event: Event) -> (r: (State, Vec<Effect>))
    ensures
        r.0 == spec_step(Subcommand::Add, target, state, event).0,
        r.1@ == spec_step(Subcommand::Add, target, state, event).1,
{
    step(Subcommand::Add, target, state, event)
}

/// Handle one event of a `remove` invocation on the given target.
pub fn remove(target: u64, state: State, event: Event) -> (r: (State, Vec<Effect>))
    ensures
        r.0 == spec_step(Subcommand::Remove, target, state, event).0,
        r.1@ == spec_step(Subcommand::Remove, target, state, event).1,
{
    step(Subcommand::Remove, target, state, event)
}

/// Handle one event of a `get` invocation on the given target.
pub fn get(target: u64, state: State, event: Event) -> (r: (State, Vec<Effect>))
    ensures
        r.0 == spec_step(Subcommand::Get, target, state, event).0,
        r.1@ == spec_step(Subcommand::Get, target, state, event).1,
{
    step(Subcommand::Get, target, state, event)
}

/// The bare `beta` command without a subcommand: the only effect is the
/// usage reply.
pub fn beta() -> (e: Effect)
    ensures
        e == Effect::Reply(Message::SpecifySubcommand),
{
    Effect::Reply(Message::SpecifySubcommand)
}

} // verus!
