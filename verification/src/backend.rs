//! A specification-level model of the backend API contract: the roster it
//! keeps is a map from Discord id to issued key, `add` enrolls a fresh key
//! and conflicts on a member, `remove` unenrolls and conflicts on a
//! non-member, `get` returns the member's key. The model exists to state
//! laws that span several calls — adding twice conflicts on the second
//! call, and the key issued by `add` is exactly the key `get` returns.
use vstd::prelude::*;
use crate::handler::Effect;
use crate::handler::Event;
use crate::handler::State;
use crate::handler::Terminal;
use crate::handler::spec_step;
use crate::laws::count_effect;
use crate::laws::lemma_role_change_needs_success;
use crate::outcome::BackendOutcome;
use crate::outcome::Subcommand;

verus! {

/// The outcome of one modelled backend call, over character sequences.
pub enum OutcomeView {
    /// HTTP 200 with this body.
    Success(Seq<char>),
    /// HTTP 422.
    Conflict,
}

/// The roster the backend keeps: which id holds which key.
pub type Roster = Map<u64, Seq<char>>;

/// `add`: a non-member is enrolled under the fresh key the backend chose
/// and the key is returned; a member causes a conflict and no change.
pub open spec fn spec_backend_add(roster: Roster, id: u64, fresh_key: Seq<char>) -> (
    Roster,
    OutcomeView,
) {
    if roster.dom().contains(id) {
        (roster, OutcomeView::Conflict)
    } else {
        (roster.insert(id, fresh_key), OutcomeView::Success(fresh_key))
    }
}

/// `remove`: a member is unenrolled and the (ignored) body is empty; a
/// non-member causes a conflict and no change.
pub open spec fn spec_backend_remove(roster: Roster, id: u64) -> (Roster, OutcomeView) {
    if roster.dom().contains(id) {
        (roster.remove(id), OutcomeView::Success(Seq::<char>::empty()))
    } else {
        (roster, OutcomeView::Conflict)
    }
}

/// `get`: a member's key is returned; a non-member causes a conflict. The
/// roster never changes.
pub open spec fn spec_backend_get(roster: Roster, id: u64) -> (Roster, OutcomeView) {
    if roster.dom().contains(id) {
        (roster, OutcomeView::Success(roster[id]))
    } else {
        (roster, OutcomeView::Conflict)
    }
}

/// Idempotence of `add`: enrolling a non-member succeeds with the issued
/// key, enrolling the same user again conflicts and leaves the roster as
/// the first call left it — and on that conflict the handler machine
/// touches no role.
pub proof fn lemma_add_idempotent(roster: Roster, id: u64, k1: Seq<char>, k2: Seq<char>)
    requires
        !roster.dom().contains(id),
    ensures
        ({
            let (roster1, out1) = spec_backend_add(roster, id, k1);
            let (roster2, out2) = spec_backend_add(roster1, id, k2);
            &&& out1 == OutcomeView::Success(k1)
            &&& out2 == OutcomeView::Conflict
            &&& roster2 == roster1
        }),
        ({
            let r = spec_step(
                Subcommand::Add,
                id,
                State::Calling,
                Event::BackendReplied(BackendOutcome::Conflict),
            );
            &&& r.0 == State::Done(Terminal::Conflict)
            &&& count_effect(r.1, Effect::GrantRole) == 0
            &&& count_effect(r.1, Effect::RevokeRole) == 0
        }),
{
    lemma_role_change_needs_success(Subcommand::Add, id, BackendOutcome::Conflict);
}

/// Round trip: with no intervening `remove`, the key string the backend
/// returns on `add` is exactly the key string `get` later returns for the
/// same user.
pub proof fn lemma_add_get_round_trip(roster: Roster, id: u64, fresh_key: Seq<char>)
    requires
        !roster.dom().contains(id),
    ensures
        ({
            let (roster1, out1) = spec_backend_add(roster, id, fresh_key);
            let (_, out2) = spec_backend_get(roster1, id);
            &&& out1 == OutcomeView::Success(fresh_key)
            &&& out2 == OutcomeView::Success(fresh_key)
        }),
{
}

} // verus!
