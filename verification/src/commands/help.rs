//! The command that explains the others.

use crate::commands::outcome::Param;
use vstd::prelude::*;

verus! {

/// The command that explains the others.
#[derive(Clone, Copy, Debug)]
pub struct Sdk;

impl Sdk {
    /// The name under which the command is called.
    pub fn name(&self) -> (r: &'static str)
        ensures
            r@ == "sdk"@,
    {
        "sdk"
    }

    /// One line on what the command does.
    pub fn description(&self) -> (r: &'static str)
        ensures
            r@ == "SDKMAN! - The Software Development Kit Manager"@,
    {
        "SDKMAN! - The Software Development Kit Manager"
    }

    /// The parameters of the command: it takes none.
    pub fn signature(&self) -> (r: Vec<Param>)
        ensures
            r@.len() == 0,
    {
        Vec::new()
    }

    /// The text that explains the commands.
    pub fn run(&self) -> (r: &'static str)
        ensures
            r@ == "SDKMAN! - The Software Development Kit Manager\n\nUsage: sdk <command> [args]\n\nCommands:\n  list (ls) [candidate]              List available candidates or versions\n  install (i) <candidate> [version]  Install a candidate version\n  uninstall (rm) <candidate> <version> Uninstall a candidate version\n  use (u) <candidate> <version>      Set a candidate version as current\n  default (d) <candidate> [version]  Set default version for a candidate\n  current (c) [candidate]            Show current version in use\n  upgrade (ug) [candidate]           Upgrade candidate to latest version\n  home (h) <candidate> <version>     Print home directory path\n  env [init|install|clear]           Manage .sdkmanrc files\n  version (v)                        Show SDKMAN plugin version\n  update                             Update local candidate cache\n  flush [tmp|metadata|version]       Clear caches\n  config                             Edit configuration file\n  offline [enable|disable]           Enable/disable offline mode\n\nExamples:\n  sdk list                           List all candidates\n  sdk list java                      List Java versions\n  sdk install java                   Install latest Java\n  sdk install java 17                Install Java 17\n  sdk install java 17 --local /path  Install from local archive\n  sdk use java 17                    Switch to Java 17\n  sdk default java 17                Set Java 17 as default\n  sdk current                        Show all current versions\n  sdk home java 17                   Show Java 17 home directory\n  sdk env init                       Create .sdkmanrc in current directory\n  sdk upgrade java                   Upgrade Java to latest\n\nAliases: i, rm, ls, u, c, ug, d, h, v\n\nFor more help: sdk <command> --help\n"@,
    {
        "SDKMAN! - The Software Development Kit Manager\n\nUsage: sdk <command> [args]\n\nCommands:\n  list (ls) [candidate]              List available candidates or versions\n  install (i) <candidate> [version]  Install a candidate version\n  uninstall (rm) <candidate> <version> Uninstall a candidate version\n  use (u) <candidate> <version>      Set a candidate version as current\n  default (d) <candidate> [version]  Set default version for a candidate\n  current (c) [candidate]            Show current version in use\n  upgrade (ug) [candidate]           Upgrade candidate to latest version\n  home (h) <candidate> <version>     Print home directory path\n  env [init|install|clear]           Manage .sdkmanrc files\n  version (v)                        Show SDKMAN plugin version\n  update                             Update local candidate cache\n  flush [tmp|metadata|version]       Clear caches\n  config                             Edit configuration file\n  offline [enable|disable]           Enable/disable offline mode\n\nExamples:\n  sdk list                           List all candidates\n  sdk list java                      List Java versions\n  sdk install java                   Install latest Java\n  sdk install java 17                Install Java 17\n  sdk install java 17 --local /path  Install from local archive\n  sdk use java 17                    Switch to Java 17\n  sdk default java 17                Set Java 17 as default\n  sdk current                        Show all current versions\n  sdk home java 17                   Show Java 17 home directory\n  sdk env init                       Create .sdkmanrc in current directory\n  sdk upgrade java                   Upgrade Java to latest\n\nAliases: i, rm, ls, u, c, ug, d, h, v\n\nFor more help: sdk <command> --help\n"
    }
}

} // verus!
