//! The command that sets the default version of a candidate.

use crate::commands::outcome::{Outcome, Param, param_views, ParamKind, ParamView};
use crate::engine::env::{
    get_current_version, marker_steps, Scope, set_current_version, Store, StoreView,
};
use crate::engine::layout::{candidate_home, installation_path};
use crate::engine::steps::views;
use crate::error::SdkError;
use vstd::prelude::*;
use vstd::string::StringExecFns;

verus! {

/// The command that sets the default version of a candidate.
#[derive(Clone, Copy, Debug)]
pub struct Default;

impl Default {
    /// The name under which the command is called.
    pub fn name(&self) -> (r: &'static str)
        ensures
            r@ == "sdk default"@,
    {
        "sdk default"
    }

    /// One line on what the command does.
    pub fn description(&self) -> (r: &'static str)
        ensures
            r@ == "Set default version for a candidate"@,
    {
        "Set default version for a candidate"
    }

    /// The parameters of the command, in the order in which they are given.
    pub fn signature(&self) -> (r: Vec<Param>)
        ensures
            param_views(r@) == seq![
                ParamView {
                    kind: ParamKind::Required,
                    name: "candidate"@,
                    description: "Candidate to set default for"@,
                    short: None,
                },
                ParamView {
                    kind: ParamKind::Optional,
                    name: "version"@,
                    description: "Version to set as default (uses current if not specified)"@,
                    short: None,
                },
            ],
    {
        let mut r: Vec<Param> = Vec::new();
        r.push(
            Param {
                kind: ParamKind::Required,
                name: "candidate",
                description: "Candidate to set default for",
                short: None,
            },
        );
        r.push(
            Param {
                kind: ParamKind::Optional,
                name: "version",
                description: "Version to set as default (uses current if not specified)",
                short: None,
            },
        );
        assert(param_views(r@) =~= seq![
            ParamView {
                kind: ParamKind::Required,
                name: "candidate"@,
                description: "Candidate to set default for"@,
                short: None,
            },
            ParamView {
                kind: ParamKind::Optional,
                name: "version"@,
                description: "Version to set as default (uses current if not specified)"@,
                short: None,
            },
        ]);
        r
    }

    /// The version that the command is about: the one given, else the
    /// current version of the candidate in the store.
    pub open spec fn target(s: StoreView, candidate: Seq<char>, version: Option<Seq<char>>) -> Option<
        Seq<char>,
    > {
        match version {
            Some(v) => Some(v),
            None => s.current(candidate, Scope::Global),
        }
    }

    /// Makes a version the current version of `candidate` in the store.
    ///
    /// Fails with `NoCurrentVersion` where no version is given and the
    /// candidate has none, and with `NotInstalled` where the installation of
    /// the version does not exist; either way nothing changes.
    pub fn run(&self, store: &mut Store, candidate: &str, version: Option<&str>) -> (r: Result<
        Outcome,
        SdkError,
    >)
        requires
            old(store).wf(),
        ensures
            final(store).wf(),
            match r {
                Ok(out) => {
                    let v = Self::target(
                        old(store)@,
                        candidate@,
                        match version {
                            Some(v) => Some(v@),
                            None => None,
                        },
                    );
                    &&& v is Some
                    &&& old(store)@.installed.contains((candidate@, v->0))
                    &&& final(store)@ == old(store)@.set_current(candidate@, v->0, Scope::Global)
                    &&& out.message@ == "Default "@ + candidate@ + " version set to "@ + v->0
                    &&& views(out.steps@) == marker_steps(
                        old(store)@.kind,
                        candidate_home(old(store)@.root, candidate@),
                        installation_path(old(store)@.root, candidate@, v->0),
                        v->0,
                        old(store)@.global.contains_key(candidate@),
                    )
                },
                Err(e) => {
                    &&& *final(store) == *old(store)
                    &&& match version {
                        Some(v) => e == SdkError::NotInstalled && !old(store)@.installed.contains(
                            (candidate@, v@),
                        ),
                        None => e == SdkError::NoCurrentVersion && old(store)@.current(
                            candidate@,
                            Scope::Global,
                        ) is None,
                    }
                },
            },
    {
        let target: String = match version {
            Some(v) => String::from_str(v),
            None => match get_current_version(store, candidate, Scope::Global) {
                Some(v) => v,
                None => {
                    return Err(SdkError::NoCurrentVersion);
                },
            },
        };
        match set_current_version(store, candidate, target.as_str()) {
            Ok(steps) => {
                let mut message = String::from_str("Default ");
                message.append(candidate);
                message.append(" version set to ");
                message.append(target.as_str());
                Ok(Outcome { message, steps })
            },
            Err(e) => Err(e),
        }
    }
}

} // verus!
