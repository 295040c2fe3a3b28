//! Version lifecycle and environment resolution for installed development kits.
//!
//! The library holds the rules of the candidate store: where an installation
//! lives, which version of a candidate is current in a scope, how an archive's
//! entries are laid out on extraction, how a project descriptor reads, and
//! which steps an installation takes. It performs no I/O itself: every
//! operation works on plain values and on an in-memory record of the store,
//! and hands back the filesystem steps that a caller has to carry out.

pub mod commands;
pub mod constants;
pub mod engine;
pub mod error;
pub mod utils;

use vstd::prelude::*;

verus! {

/// The plugin: the set of commands that it offers.
#[derive(Clone, Copy, Debug)]
pub struct SdkmanPlugin;

/// The names of the commands, the main commands first and the short names
/// behind them.
pub open spec fn command_names() -> Seq<Seq<char>> {
    seq![
        "sdk"@,
        "sdk list"@,
        "sdk install"@,
        "sdk uninstall"@,
        "sdk use"@,
        "sdk current"@,
        "sdk upgrade"@,
        "sdk default"@,
        "sdk home"@,
        "sdk version"@,
        "sdk env"@,
        "sdk update"@,
        "sdk flush"@,
        "sdk config"@,
        "sdk offline"@,
        "sdk ls"@,
        "sdk i"@,
        "sdk rm"@,
        "sdk u"@,
        "sdk c"@,
        "sdk ug"@,
        "sdk d"@,
        "sdk h"@,
        "sdk v"@,
    ]
}

impl SdkmanPlugin {
    /// The names of the commands that the plugin offers, in the order in
    /// which it registers them.
    pub fn commands(&self) -> (r: Vec<&'static str>)
        ensures
            r@.len() == command_names().len(),
            forall|i: int| 0 <= i < r@.len() ==> (#[trigger] r@[i])@ == command_names()[i],
    {
        let mut r: Vec<&'static str> = Vec::new();
        r.push(commands::help::Sdk.name());
        r.push(commands::list::List.name());
        r.push(commands::install::Install.name());
        r.push(commands::uninstall::Uninstall.name());
        r.push(commands::switch::Use.name());
        r.push(commands::current::Current.name());
        r.push(commands::upgrade::Upgrade.name());
        r.push(commands::default::Default.name());
        r.push(commands::home::Home.name());
        r.push(commands::version::Version.name());
        r.push(commands::env::Env.name());
        r.push(commands::update::Update.name());
        r.push(commands::flush::Flush.name());
        r.push(commands::config::Config.name());
        r.push(commands::offline::Offline.name());
        r.push(commands::aliases::Ls.name());
        r.push(commands::aliases::I.name());
        r.push(commands::aliases::Rm.name());
        r.push(commands::aliases::U.name());
        r.push(commands::aliases::C.name());
        r.push(commands::aliases::Ug.name());
        r.push(commands::aliases::D.name());
        r.push(commands::aliases::H.name());
        r.push(commands::aliases::V.name());
        r
    }
}

} // verus!
