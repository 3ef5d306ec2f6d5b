//! Permission gate: decides whether the invoking actor may manage the beta
//! roster. The role lookup itself is a Discord API call made by the embedding
//! program; this module only interprets its result. A lookup that failed is
//! treated as a denial, never as implicit approval.
use vstd::prelude::*;

verus! {

/// Whether an actor whose giver-role lookup produced `lookup` is permitted
/// to manage the beta program. `None` means the lookup itself failed, which
/// must count as a denial.
pub fn is_permitted(lookup: Option<bool>) -> (r: bool)
    ensures
        r == (lookup == Some(true)),
{
    match lookup {
        Some(held) => held,
        None => false,
    }
}

} // verus!
