use beta_bot::handler::{beta, step, Effect, Event, LogEntry, Severity, State, Terminal};
use beta_bot::handler::{add, get, remove, severity};
use beta_bot::gate::is_permitted;
use beta_bot::messages::Message;
use beta_bot::outcome::{classify_response, BackendOutcome, Subcommand};

const TARGET: u64 = 4242;

#[test]
fn gate_approves_only_a_held_role() {
    assert!(is_permitted(Some(true)));
    assert!(!is_permitted(Some(false)));
    // A failed lookup counts as denial, never as implicit approval.
    assert!(!is_permitted(None));
}

#[test]
fn bare_beta_command_asks_for_a_subcommand() {
    assert_eq!(
        beta(),
        Effect::Reply(Message::SpecifySubcommand)
    );
}

#[test]
fn denied_actor_gets_one_ephemeral_denial_and_no_backend_call() {
    // Scenario: actor lacks the giver role, `add` is invoked.
    let (state, effects) = add(TARGET, State::Start, Event::GateChecked(false));
    assert_eq!(state, State::Done(Terminal::Denied));
    assert_eq!(
        effects,
        vec![Effect::EphemeralReply(Message::NotPermitted)]
    );
    assert!(!effects.contains(&Effect::CallBackend));
    // The same holds for the other subcommands.
    for cmd in [Subcommand::Remove, Subcommand::Get] {
        let (state, effects) = step(cmd, TARGET, State::Start, Event::GateChecked(false));
        assert_eq!(state, State::Done(Terminal::Denied));
        assert_eq!(
            effects,
            vec![Effect::EphemeralReply(Message::NotPermitted)]
        );
    }
}

#[test]
fn permitted_actor_causes_exactly_one_backend_call() {
    let (state, effects) = add(TARGET, State::Start, Event::GateChecked(true));
    assert_eq!(state, State::Calling);
    assert_eq!(effects, vec![Effect::CallBackend]);
}

#[test]
fn successful_add_delivers_key_confirms_and_grants_role() {
    // Scenario: actor permitted, backend returns 200 with body "ABCD-1234".
    let outcome = classify_response(200, "ABCD-1234".to_owned());
    assert_eq!(outcome, BackendOutcome::Success("ABCD-1234".to_owned()));

    let (state, effects) = add(TARGET, State::Calling, Event::BackendReplied(outcome));
    assert_eq!(state, State::AwaitingDm("ABCD-1234".to_owned()));
    assert_eq!(
        effects,
        vec![
            Effect::Log(LogEntry::KeyIssued(TARGET, "ABCD-1234".to_owned())),
            Effect::SendDm(Message::KeyDm("ABCD-1234".to_owned())),
        ]
    );

    // The DM text carries the key in a redacted (spoiler) field.
    let dm_text = beta_bot::messages::render(&Message::KeyDm("ABCD-1234".to_owned()));
    assert!(dm_text.contains("||ABCD-1234||"));

    // The DM was delivered: public confirmation, then the role grant.
    let (state, effects) = add(TARGET, state, Event::DmAttempted(true));
    assert_eq!(state, State::AwaitingRoleSync);
    assert_eq!(
        effects,
        vec![
            Effect::Reply(Message::AddedConfirmation(TARGET)),
            Effect::GrantRole,
        ]
    );

    let (state, effects) = add(TARGET, state, Event::RoleSyncAttempted(true));
    assert_eq!(state, State::Done(Terminal::Added));
    assert_eq!(effects, vec![]);
}

#[test]
fn add_confirms_and_grants_even_when_the_dm_fails() {
    let (state, effects) = add(
        TARGET,
        State::AwaitingDm("ABCD-1234".to_owned()),
        Event::DmAttempted(false),
    );
    assert_eq!(state, State::AwaitingRoleSync);
    assert_eq!(
        effects,
        vec![
            Effect::Log(LogEntry::DmFailed),
            Effect::Reply(Message::DmFallback),
            Effect::Reply(Message::AddedConfirmation(TARGET)),
            Effect::GrantRole,
        ]
    );
}

#[test]
fn failed_role_sync_is_only_logged_and_add_still_succeeds() {
    let (state, effects) = add(TARGET, State::AwaitingRoleSync, Event::RoleSyncAttempted(false));
    assert_eq!(state, State::Done(Terminal::Added));
    assert_eq!(effects, vec![Effect::Log(LogEntry::RoleSyncFailed)]);
}

#[test]
fn successful_remove_confirms_and_revokes_role() {
    let outcome = classify_response(200, String::new());
    let (state, effects) = remove(TARGET, State::Calling, Event::BackendReplied(outcome));
    assert_eq!(state, State::AwaitingRoleSync);
    assert_eq!(
        effects,
        vec![
            Effect::Log(LogEntry::UserRemoved(TARGET)),
            Effect::Reply(Message::RemovedConfirmation(TARGET)),
            Effect::RevokeRole,
        ]
    );
    let (state, effects) = remove(TARGET, state, Event::RoleSyncAttempted(true));
    assert_eq!(state, State::Done(Terminal::Removed));
    assert_eq!(effects, vec![]);
}

#[test]
fn remove_conflict_is_ephemeral_and_changes_no_role() {
    // Scenario: actor permitted, backend returns 422 for `remove`.
    let outcome = classify_response(422, String::new());
    assert_eq!(outcome, BackendOutcome::Conflict);
    let (state, effects) = remove(TARGET, State::Calling, Event::BackendReplied(outcome));
    assert_eq!(state, State::Done(Terminal::Conflict));
    assert_eq!(
        effects,
        vec![Effect::EphemeralReply(Message::NotEnrolled(TARGET))]
    );
    assert!(!effects.contains(&Effect::GrantRole));
    assert!(!effects.contains(&Effect::RevokeRole));
}

#[test]
fn add_conflict_names_the_already_enrolled_target() {
    let (state, effects) = add(
        TARGET,
        State::Calling,
        Event::BackendReplied(BackendOutcome::Conflict),
    );
    assert_eq!(state, State::Done(Terminal::Conflict));
    assert_eq!(
        effects,
        vec![Effect::EphemeralReply(Message::AlreadyEnrolled(TARGET))]
    );
}

#[test]
fn unreachable_backend_replies_generically_logs_and_changes_no_role() {
    // Scenario: connection error, modelled as a transport failure.
    let outcome = BackendOutcome::TransportError("connection refused".to_owned());
    let (state, effects) = add(TARGET, State::Calling, Event::BackendReplied(outcome));
    assert_eq!(state, State::Done(Terminal::Failed));
    assert_eq!(
        effects,
        vec![
            Effect::Reply(Message::GenericError),
            Effect::Log(LogEntry::TransportFailed("connection refused".to_owned())),
        ]
    );
    assert!(!effects.contains(&Effect::GrantRole));
    assert!(!effects.contains(&Effect::RevokeRole));
    // The transport failure is logged at error severity.
    assert_eq!(
        severity(&LogEntry::TransportFailed("connection refused".to_owned())),
        Severity::Error
    );
}

#[test]
fn unexpected_status_replies_with_diagnostics_and_is_logged() {
    let outcome = classify_response(503, "oops".to_owned());
    assert_eq!(
        outcome,
        BackendOutcome::UnexpectedStatus(503, "oops".to_owned())
    );
    let (state, effects) = get(TARGET, State::Calling, Event::BackendReplied(outcome));
    assert_eq!(state, State::Done(Terminal::Failed));
    assert_eq!(
        effects,
        vec![
            Effect::Reply(Message::UnexpectedStatus(503)),
            Effect::Log(LogEntry::UnexpectedStatus(503, "oops".to_owned())),
        ]
    );
}

#[test]
fn successful_get_replies_ephemerally_with_the_key() {
    let outcome = classify_response(200, "ABCD-1234".to_owned());
    let (state, effects) = get(TARGET, State::Calling, Event::BackendReplied(outcome));
    assert_eq!(state, State::Done(Terminal::Fetched));
    assert_eq!(
        effects,
        vec![
            Effect::Log(LogEntry::KeyFetched(TARGET, "ABCD-1234".to_owned())),
            Effect::EphemeralReply(Message::FetchedKey(TARGET, "ABCD-1234".to_owned())),
        ]
    );
}

#[test]
fn round_trip_of_the_issued_key_through_add_and_get() {
    // The key issued on `add` is the key `get` later shows, end to end
    // through the handler's own messages.
    let issued = classify_response(200, "ABCD-1234".to_owned());
    let (state, _) = add(TARGET, State::Calling, Event::BackendReplied(issued));
    let key_in_hand = match state {
        State::AwaitingDm(key) => key,
        other => panic!("unexpected state {other:?}"),
    };
    let fetched = classify_response(200, key_in_hand.clone());
    let (_, effects) = get(TARGET, State::Calling, Event::BackendReplied(fetched));
    assert_eq!(
        effects[1],
        Effect::EphemeralReply(Message::FetchedKey(TARGET, key_in_hand))
    );
}

#[test]
fn events_that_cannot_occur_change_nothing() {
    let (state, effects) = add(TARGET, State::Start, Event::DmAttempted(true));
    assert_eq!(state, State::Start);
    assert_eq!(effects, vec![]);
    let (state, effects) = get(
        TARGET,
        State::AwaitingDm("k".to_owned()),
        Event::DmAttempted(true),
    );
    assert_eq!(state, State::AwaitingDm("k".to_owned()));
    assert_eq!(effects, vec![]);
    let (state, effects) = get(TARGET, State::AwaitingRoleSync, Event::RoleSyncAttempted(true));
    assert_eq!(state, State::AwaitingRoleSync);
    assert_eq!(effects, vec![]);
    let (state, effects) = remove(
        TARGET,
        State::Done(Terminal::Removed),
        Event::GateChecked(true),
    );
    assert_eq!(state, State::Done(Terminal::Removed));
    assert_eq!(effects, vec![]);
}

#[test]
fn side_effect_failures_are_warnings_and_audit_lines_are_info() {
    assert_eq!(severity(&LogEntry::DmFailed), Severity::Warning);
    assert_eq!(severity(&LogEntry::RoleSyncFailed), Severity::Warning);
    assert_eq!(
        severity(&LogEntry::UnexpectedStatus(500, "body".to_owned())),
        Severity::Error
    );
    assert_eq!(
        severity(&LogEntry::KeyIssued(TARGET, "k".to_owned())),
        Severity::Info
    );
    assert_eq!(severity(&LogEntry::UserRemoved(TARGET)), Severity::Info);
    assert_eq!(
        severity(&LogEntry::KeyFetched(TARGET, "k".to_owned())),
        Severity::Info
    );
}
