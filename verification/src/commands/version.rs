//! The command that tells the version of the tool.

use crate::commands::outcome::Param;
use vstd::prelude::*;
use vstd::string::StringExecFns;

verus! {

/// The command that tells the version of the tool.
#[derive(Clone, Copy, Debug)]
pub struct Version;

impl Version {
    /// The name under which the command is called.
    pub fn name(&self) -> (r: &'static str)
        ensures
            r@ == "sdk version"@,
    {
        "sdk version"
    }

    /// One line on what the command does.
    pub fn description(&self) -> (r: &'static str)
        ensures
            r@ == "Show SDKMAN plugin version"@,
    {
        "Show SDKMAN plugin version"
    }

    /// The parameters of the command: it takes none.
    pub fn signature(&self) -> (r: Vec<Param>)
        ensures
            r@.len() == 0,
    {
        Vec::new()
    }

    /// The line that names the version.
    pub fn run(&self, version: &str) -> (r: String)
        ensures
            r@ == "SDKMAN! Nushell Plugin "@ + version@,
    {
        let mut r = String::from_str("SDKMAN! Nushell Plugin ");
        r.append(version);
        r
    }
}

} // verus!
