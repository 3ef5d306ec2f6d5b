//! Laws of the invocation machine, stated over `spec_step` and proved for
//! every target, key and side-effect outcome: a denied actor causes exactly
//! one ephemeral denial and no backend call; a successful `add` grants the
//! role exactly once and always posts its confirmation, whether or not the
//! direct message was delivered; a successful `remove` revokes the role
//! exactly once; and no outcome other than a backend success ever touches
//! a role.
use vstd::prelude::*;
use crate::handler::Effect;
use crate::handler::Event;
use crate::handler::LogEntry;
use crate::handler::State;
use crate::handler::Terminal;
use crate::handler::spec_step;
use crate::messages::Message;
use crate::outcome::BackendOutcome;
use crate::outcome::Subcommand;

verus! {

/// How often the effect `e` occurs in `effects`.
pub open spec fn count_effect(effects: Seq<Effect>, e: Effect) -> nat
    decreases effects.len(),
{
    if effects.len() == 0 {
        0
    } else {
        count_effect(effects.drop_last(), e) + (if effects.last() == e {
            1nat
        } else {
            0nat
        })
    }
}

/// One if `a` is the counted effect `e`, zero otherwise.
pub open spec fn indicator(a: Effect, e: Effect) -> nat {
    if a == e {
        1nat
    } else {
        0nat
    }
}

proof fn lemma_count_push(s: Seq<Effect>, x: Effect, e: Effect)
    ensures
        count_effect(s.push(x), e) == count_effect(s, e) + indicator(x, e),
{
    assert(s.push(x).drop_last() =~= s);
    assert(s.push(x).last() == x);
}

proof fn lemma_count1(a: Effect, e: Effect)
    ensures
        count_effect(seq![a], e) == indicator(a, e),
{
    assert(seq![a] =~= Seq::<Effect>::empty().push(a));
    lemma_count_push(Seq::<Effect>::empty(), a, e);
}

proof fn lemma_count2(a: Effect, b: Effect, e: Effect)
    ensures
        count_effect(seq![a, b], e) == indicator(a, e) + indicator(b, e),
{
    assert(seq![a, b] =~= seq![a].push(b));
    lemma_count_push(seq![a], b, e);
    lemma_count1(a, e);
}

proof fn lemma_count3(a: Effect, b: Effect, c: Effect, e: Effect)
    ensures
        count_effect(seq![a, b, c], e) == indicator(a, e) + indicator(b, e) + indicator(c, e),
{
    assert(seq![a, b, c] =~= seq![a, b].push(c));
    lemma_count_push(seq![a, b], c, e);
    lemma_count2(a, b, e);
}

proof fn lemma_count4(a: Effect, b: Effect, c: Effect, d: Effect, e: Effect)
    ensures
        count_effect(seq![a, b, c, d], e) == indicator(a, e) + indicator(b, e) + indicator(c, e)
            + indicator(d, e),
{
    assert(seq![a, b, c, d] =~= seq![a, b, c].push(d));
    lemma_count_push(seq![a, b, c], d, e);
    lemma_count3(a, b, c, e);
}

/// Counting distributes over concatenation.
pub proof fn lemma_count_effect_concat(a: Seq<Effect>, b: Seq<Effect>, e: Effect)
    ensures
        count_effect(a + b, e) == count_effect(a, e) + count_effect(b, e),
    decreases b.len(),
{
    if b.len() == 0 {
        assert(a + b =~= a);
    } else {
        lemma_count_effect_concat(a, b.drop_last(), e);
        assert((a + b).drop_last() =~= a + b.drop_last());
        assert((a + b).last() == b.last());
    }
}

/// A non-permitted actor, on any subcommand: the invocation ends denied,
/// with exactly one effect — the ephemeral denial — and in particular no
/// backend call.
pub proof fn lemma_denied_invocation(cmd: Subcommand, target: u64)
    ensures
        ({
            let r = spec_step(cmd, target, State::Start, Event::GateChecked(false));
            &&& r.0 == State::Done(Terminal::Denied)
            &&& r.1 == seq![Effect::EphemeralReply(Message::NotPermitted)]
            &&& count_effect(r.1, Effect::CallBackend) == 0
            &&& count_effect(r.1, Effect::EphemeralReply(Message::NotPermitted)) == 1
        }),
{
    let r = spec_step(cmd, target, State::Start, Event::GateChecked(false));
    assert(r.1 =~= seq![Effect::EphemeralReply(Message::NotPermitted)]);
    lemma_count1(Effect::EphemeralReply(Message::NotPermitted), Effect::CallBackend);
    lemma_count1(
        Effect::EphemeralReply(Message::NotPermitted),
        Effect::EphemeralReply(Message::NotPermitted),
    );
}

/// The full effect trace of an `add` invocation whose backend call issued
/// `key`, threading the machine from the backend reply through the direct
/// message and the role sync.
pub open spec fn spec_add_success_run(target: u64, key: String, dm_ok: bool, role_ok: bool) -> (
    State,
    Seq<Effect>,
) {
    let r1 = spec_step(
        Subcommand::Add,
        target,
        State::Calling,
        Event::BackendReplied(BackendOutcome::Success(key)),
    );
    let r2 = spec_step(Subcommand::Add, target, r1.0, Event::DmAttempted(dm_ok));
    let r3 = spec_step(Subcommand::Add, target, r2.0, Event::RoleSyncAttempted(role_ok));
    (r3.0, r1.1 + r2.1 + r3.1)
}

proof fn lemma_add_success_count(target: u64, key: String, dm_ok: bool, role_ok: bool, e: Effect)
    ensures
        count_effect(spec_add_success_run(target, key, dm_ok, role_ok).1, e) == indicator(
            Effect::Log(LogEntry::KeyIssued(target, key)),
            e,
        ) + indicator(Effect::SendDm(Message::KeyDm(key)), e) + (if dm_ok {
            0nat
        } else {
            indicator(Effect::Log(LogEntry::DmFailed), e) + indicator(
                Effect::Reply(Message::DmFallback),
                e,
            )
        }) + indicator(Effect::Reply(Message::AddedConfirmation(target)), e) + indicator(
            Effect::GrantRole,
            e,
        ) + (if role_ok {
            0nat
        } else {
            indicator(Effect::Log(LogEntry::RoleSyncFailed), e)
        }),
{
    let r1 = spec_step(
        Subcommand::Add,
        target,
        State::Calling,
        Event::BackendReplied(BackendOutcome::Success(key)),
    );
    let r2 = spec_step(Subcommand::Add, target, r1.0, Event::DmAttempted(dm_ok));
    let r3 = spec_step(Subcommand::Add, target, r2.0, Event::RoleSyncAttempted(role_ok));
    let issued = Effect::Log(LogEntry::KeyIssued(target, key));
    let dm = Effect::SendDm(Message::KeyDm(key));
    let conf = Effect::Reply(Message::AddedConfirmation(target));
    assert(r1.0 == State::AwaitingDm(key));
    assert(r1.1 =~= seq![issued, dm]);
    lemma_count2(issued, dm, e);
    if dm_ok {
        assert(r2.1 =~= seq![conf, Effect::GrantRole]);
        lemma_count2(conf, Effect::GrantRole, e);
    } else {
        assert(r2.1 =~= seq![
            Effect::Log(LogEntry::DmFailed),
            Effect::Reply(Message::DmFallback),
            conf,
            Effect::GrantRole,
        ]);
        lemma_count4(
            Effect::Log(LogEntry::DmFailed),
            Effect::Reply(Message::DmFallback),
            conf,
            Effect::GrantRole,
            e,
        );
    }
    if role_ok {
        assert(r3.1 =~= Seq::<Effect>::empty());
    } else {
        assert(r3.1 =~= seq![Effect::Log(LogEntry::RoleSyncFailed)]);
        lemma_count1(Effect::Log(LogEntry::RoleSyncFailed), e);
    }
    lemma_count_effect_concat(r1.1, r2.1, e);
    lemma_count_effect_concat(r1.1 + r2.1, r3.1, e);
}

/// A successful `add`, whatever became of the direct message and the role
/// sync: the invocation ends in `Added`, the role is granted exactly once,
/// the public confirmation is posted at least once, and no role is revoked.
pub proof fn lemma_add_success_effects(target: u64, key: String, dm_ok: bool, role_ok: bool)
    ensures
        ({
            let r = spec_add_success_run(target, key, dm_ok, role_ok);
            &&& r.0 == State::Done(Terminal::Added)
            &&& count_effect(r.1, Effect::GrantRole) == 1
            &&& count_effect(r.1, Effect::Reply(Message::AddedConfirmation(target))) >= 1
            &&& count_effect(r.1, Effect::RevokeRole) == 0
        }),
{
    lemma_add_success_count(target, key, dm_ok, role_ok, Effect::GrantRole);
    lemma_add_success_count(
        target,
        key,
        dm_ok,
        role_ok,
        Effect::Reply(Message::AddedConfirmation(target)),
    );
    lemma_add_success_count(target, key, dm_ok, role_ok, Effect::RevokeRole);
}

/// The full effect trace of a `remove` invocation whose backend call
/// succeeded with `body`, threading the machine through the role sync.
pub open spec fn spec_remove_success_run(target: u64, body: String, role_ok: bool) -> (
    State,
    Seq<Effect>,
) {
    let r1 = spec_step(
        Subcommand::Remove,
        target,
        State::Calling,
        Event::BackendReplied(BackendOutcome::Success(body)),
    );
    let r2 = spec_step(Subcommand::Remove, target, r1.0, Event::RoleSyncAttempted(role_ok));
    (r2.0, r1.1 + r2.1)
}

proof fn lemma_remove_success_count(target: u64, body: String, role_ok: bool, e: Effect)
    ensures
        count_effect(spec_remove_success_run(target, body, role_ok).1, e) == indicator(
            Effect::Log(LogEntry::UserRemoved(target)),
            e,
        ) + indicator(Effect::Reply(Message::RemovedConfirmation(target)), e) + indicator(
            Effect::RevokeRole,
            e,
        ) + (if role_ok {
            0nat
        } else {
            indicator(Effect::Log(LogEntry::RoleSyncFailed), e)
        }),
{
    let r1 = spec_step(
        Subcommand::Remove,
        target,
        State::Calling,
        Event::BackendReplied(BackendOutcome::Success(body)),
    );
    let r2 = spec_step(Subcommand::Remove, target, r1.0, Event::RoleSyncAttempted(role_ok));
    let removed = Effect::Log(LogEntry::UserRemoved(target));
    let conf = Effect::Reply(Message::RemovedConfirmation(target));
    assert(r1.0 == State::AwaitingRoleSync);
    assert(r1.1 =~= seq![removed, conf, Effect::RevokeRole]);
    lemma_count3(removed, conf, Effect::RevokeRole, e);
    if role_ok {
        assert(r2.1 =~= Seq::<Effect>::empty());
    } else {
        assert(r2.1 =~= seq![Effect::Log(LogEntry::RoleSyncFailed)]);
        lemma_count1(Effect::Log(LogEntry::RoleSyncFailed), e);
    }
    lemma_count_effect_concat(r1.1, r2.1, e);
}

/// A successful `remove`, whatever became of the role sync: the invocation
/// ends in `Removed`, the role is revoked exactly once, the public
/// confirmation is posted at least once, and no role is granted.
pub proof fn lemma_remove_success_effects(target: u64, body: String, role_ok: bool)
    ensures
        ({
            let r = spec_remove_success_run(target, body, role_ok);
            &&& r.0 == State::Done(Terminal::Removed)
            &&& count_effect(r.1, Effect::RevokeRole) == 1
            &&& count_effect(r.1, Effect::Reply(Message::RemovedConfirmation(target))) >= 1
            &&& count_effect(r.1, Effect::GrantRole) == 0
        }),
{
    lemma_remove_success_count(target, body, role_ok, Effect::RevokeRole);
    lemma_remove_success_count(
        target,
        body,
        role_ok,
        Effect::Reply(Message::RemovedConfirmation(target)),
    );
    lemma_remove_success_count(target, body, role_ok, Effect::GrantRole);
}

/// No backend outcome other than a success ever touches a role: the
/// interpretation of a conflict, an unexpected status or a transport
/// failure emits neither a grant nor a revocation.
pub proof fn lemma_role_change_needs_success(cmd: Subcommand, target: u64, outcome: BackendOutcome)
    requires
        !(outcome is Success),
    ensures
        ({
            let r = spec_step(cmd, target, State::Calling, Event::BackendReplied(outcome));
            &&& count_effect(r.1, Effect::GrantRole) == 0
            &&& count_effect(r.1, Effect::RevokeRole) == 0
        }),
{
    let r = spec_step(cmd, target, State::Calling, Event::BackendReplied(outcome));
    match outcome {
        BackendOutcome::TransportError(msg) => {
            let reply = Effect::Reply(Message::GenericError);
            let logged = Effect::Log(LogEntry::TransportFailed(msg));
            assert(r.1 =~= seq![reply, logged]);
            lemma_count2(reply, logged, Effect::GrantRole);
            lemma_count2(reply, logged, Effect::RevokeRole);
        },
        BackendOutcome::Conflict => {
            let msg = if cmd == Subcommand::Add {
                Message::AlreadyEnrolled(target)
            } else {
                Message::NotEnrolled(target)
            };
            assert(r.1 =~= seq![Effect::EphemeralReply(msg)]);
            lemma_count1(Effect::EphemeralReply(msg), Effect::GrantRole);
            lemma_count1(Effect::EphemeralReply(msg), Effect::RevokeRole);
        },
        BackendOutcome::UnexpectedStatus(code, body) => {
            let reply = Effect::Reply(Message::UnexpectedStatus(code));
            let logged = Effect::Log(LogEntry::UnexpectedStatus(code, body));
            assert(r.1 =~= seq![reply, logged]);
            lemma_count2(reply, logged, Effect::GrantRole);
            lemma_count2(reply, logged, Effect::RevokeRole);
        },
        BackendOutcome::Success(_) => {},
    }
}

} // verus!
