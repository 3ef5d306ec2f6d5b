//! Process-wide settings: the three backend endpoint URLs, the role that
//! permits managing the roster, and the role mirrored onto enrolled users.
//! Loading the settings from a file is I/O and happens outside the verified
//! code; this module only holds the values and picks the endpoint for a
//! subcommand.
use vstd::prelude::*;
use crate::outcome::Subcommand;

verus! {

/// Immutable configuration, loaded once at startup and read-only thereafter.
#[derive(Clone, PartialEq, Eq, Debug)]
pub struct Config {
    /// Endpoint for enrolling a user.
    pub beta_addkey_url: String,
    /// Endpoint for removing a user.
    pub beta_removekey_url: String,
    /// Endpoint for fetching a user's key.
    pub beta_getkey_url: String,
    /// The Discord role required to manage other users' enrollment.
    pub beta_giver_role: u64,
    /// The Discord role mirrored to reflect enrollment status.
    pub beta_role: u64,
}

impl Config {
    /// The backend endpoint that the given subcommand posts to.
    pub fn endpoint_for(&self, cmd: Subcommand) -> (r: &String)
        ensures
            cmd == Subcommand::Add ==> r == &self.beta_addkey_url,
            cmd == Subcommand::Remove ==> r == &self.beta_removekey_url,
            cmd == Subcommand::Get ==> r == &self.beta_getkey_url,
    {
        match cmd {
            Subcommand::Add => &self.beta_addkey_url,
            Subcommand::Remove => &self.beta_removekey_url,
            Subcommand::Get => &self.beta_getkey_url,
        }
    }
}

} // verus!
