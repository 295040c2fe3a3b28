//! The command that tells where an installation stands.

use crate::commands::outcome::{Param, param_views, ParamKind, ParamView};
use crate::engine::env::{is_installed, Store};
use crate::engine::layout::{candidate_dir, installation_path};
use crate::error::SdkError;
use vstd::prelude::*;

verus! {

/// The command that tells where an installation stands.
#[derive(Clone, Copy, Debug)]
pub struct Home;

impl Home {
    /// The name under which the command is called.
    pub fn name(&self) -> (r: &'static str)
        ensures
            r@ == "sdk home"@,
    {
        "sdk home"
    }

    /// One line on what the command does.
    pub fn description(&self) -> (r: &'static str)
        ensures
            r@ == "Print home directory path of installed candidate version"@,
    {
        "Print home directory path of installed candidate version"
    }

    /// The parameters of the command, in the order in which they are given.
    pub fn signature(&self) -> (r: Vec<Param>)
        ensures
            param_views(r@) == seq![
                ParamView {
                    kind: ParamKind::Required,
                    name: "candidate"@,
                    description: "Candidate name"@,
                    short: None,
                },
                ParamView {
                    kind: ParamKind::Required,
                    name: "version"@,
                    description: "Version"@,
                    short: None,
                },
            ],
    {
        let mut r: Vec<Param> = Vec::new();
        r.push(
            Param {
                kind: ParamKind::Required,
                name: "candidate",
                description: "Candidate name",
                short: None,
            },
        );
        r.push(
            Param {
                kind: ParamKind::Required,
                name: "version",
                description: "Version",
                short: None,
            },
        );
        assert(param_views(r@) =~= seq![
            ParamView {
                kind: ParamKind::Required,
                name: "candidate"@,
                description: "Candidate name"@,
                short: None,
            },
            ParamView {
                kind: ParamKind::Required,
                name: "version"@,
                description: "Version"@,
                short: None,
            },
        ]);
        r
    }

    /// The directory of an installation, provided that it exists.
    pub fn run(&self, store: &Store, candidate: &str, version: &str) -> (r: Result<String, SdkError>)
        ensures
            match r {
                Ok(dir) => store@.installed.contains((candidate@, version@)) && dir@
                    == installation_path(store@.root, candidate@, version@),
                Err(e) => !store@.installed.contains((candidate@, version@)) && e
                    == SdkError::NotInstalled,
            },
    {
        if !is_installed(store, candidate, version) {
            return Err(SdkError::NotInstalled);
        }
        Ok(candidate_dir(store.root(), candidate, version))
    }
}

} // verus!
