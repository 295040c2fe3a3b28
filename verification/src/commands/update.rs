//! The command that refreshes the list of candidates.

use crate::commands::outcome::Param;
use crate::engine::api::{candidates_in, get_candidates};
use crate::utils::text::{decimal, decimal_string};
use vstd::prelude::*;
use vstd::string::StringExecFns;

verus! {

/// The command that refreshes the list of candidates.
#[derive(Clone, Copy, Debug)]
pub struct Update;

impl Update {
    /// The name under which the command is called.
    pub fn name(&self) -> (r: &'static str)
        ensures
            r@ == "sdk update"@,
    {
        "sdk update"
    }

    /// One line on what the command does.
    pub fn description(&self) -> (r: &'static str)
        ensures
            r@ == "Update local candidate cache"@,
    {
        "Update local candidate cache"
    }

    /// The parameters of the command: it takes none.
    pub fn signature(&self) -> (r: Vec<Param>)
        ensures
            r@.len() == 0,
    {
        Vec::new()
    }

    /// The message that tells how many candidates the catalog's
    /// comma-separated list names.
    pub fn run(&self, catalog: &str) -> (r: String)
        ensures
            r@ == "Candidate cache updated. "@ + decimal(candidates_in(catalog@).len())
                + " candidates available."@,
    {
        let count = get_candidates(catalog).len();
        let mut r = String::from_str("Candidate cache updated. ");
        r.append(decimal_string(count).as_str());
        r.append(" candidates available.");
        r
    }
}

} // verus!
