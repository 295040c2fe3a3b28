//! The command that opens the configuration in an editor.

use crate::commands::outcome::Param;
use crate::constants::{CONFIG_FILE, ETC_DIR};
use crate::engine::layout::{join, join_path};
use vstd::prelude::*;
use vstd::string::StringExecFns;

verus! {

/// The command that opens the configuration in an editor.
#[derive(Clone, Copy, Debug)]
pub struct Config;

impl Config {
    /// The name under which the command is called.
    pub fn name(&self) -> (r: &'static str)
        ensures
            r@ == "sdk config"@,
    {
        "sdk config"
    }

    /// One line on what the command does.
    pub fn description(&self) -> (r: &'static str)
        ensures
            r@ == "Edit SDKMAN configuration file"@,
    {
        "Edit SDKMAN configuration file"
    }

    /// The parameters of the command: it takes none.
    pub fn signature(&self) -> (r: Vec<Param>)
        ensures
            r@.len() == 0,
    {
        Vec::new()
    }

    /// The editor to start and the file to open in it: the editor that is
    /// configured, else `vi`, and `etc/config` below the root of the store.
    pub fn run(&self, root: &str, editor: Option<&str>) -> (r: (String, String))
        ensures
            r.0@ == match editor {
                Some(e) => e@,
                None => "vi"@,
            },
            r.1@ == join(join(root@, "etc"@), "config"@),
    {
        let program = match editor {
            Some(e) => String::from_str(e),
            None => String::from_str("vi"),
        };
        let etc = join_path(root, ETC_DIR);
        (program, join_path(etc.as_str(), CONFIG_FILE))
    }
}

} // verus!
