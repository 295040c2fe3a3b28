//! The command that makes a version current.

use crate::commands::outcome::{
    Outcome, pair_text, Param, param_views, ParamKind, ParamView, phrase,
};
use crate::engine::env::{
    is_local_env, marker_steps, set_current_version, set_local_current_version, Store,
};
use crate::engine::layout::{candidate_home, installation_path};
use crate::engine::steps::views;
use crate::error::SdkError;
use vstd::prelude::*;

verus! {

/// The command that makes a version current.
#[derive(Clone, Copy, Debug)]
pub struct Use;

impl Use {
    /// The name under which the command is called.
    pub fn name(&self) -> (r: &'static str)
        ensures
            r@ == "sdk use"@,
    {
        "sdk use"
    }

    /// One line on what the command does.
    pub fn description(&self) -> (r: &'static str)
        ensures
            r@ == "Set a candidate version as current"@,
    {
        "Set a candidate version as current"
    }

    /// The parameters of the command, in the order in which they are given.
    pub fn signature(&self) -> (r: Vec<Param>)
        ensures
            param_views(r@) == seq![
                ParamView {
                    kind: ParamKind::Required,
                    name: "candidate"@,
                    description: "Candidate to use"@,
                    short: None,
                },
                ParamView {
                    kind: ParamKind::Required,
                    name: "version"@,
                    description: "Version to use"@,
                    short: None,
                },
            ],
    {
        let mut r: Vec<Param> = Vec::new();
        r.push(
            Param {
                kind: ParamKind::Required,
                name: "candidate",
                description: "Candidate to use",
                short: None,
            },
        );
        r.push(
            Param {
                kind: ParamKind::Required,
                name: "version",
                description: "Version to use",
                short: None,
            },
        );
        assert(param_views(r@) =~= seq![
            ParamView {
                kind: ParamKind::Required,
                name: "candidate"@,
                description: "Candidate to use"@,
                short: None,
            },
            ParamView {
                kind: ParamKind::Required,
                name: "version"@,
                description: "Version to use"@,
                short: None,
            },
        ]);
        r
    }

    /// Makes `version` the current version of `candidate`: in the project's
    /// overlay where the project has one, else in the store.
    ///
    /// Fails with `NotInstalled`, and changes nothing, where the installation
    /// does not exist.
    pub fn run(&self, store: &mut Store, candidate: &str, version: &str) -> (r: Result<
        Outcome,
        SdkError,
    >)
        requires
            old(store).wf(),
        ensures
            final(store).wf(),
            final(store)@ == old(store)@.set_current(
                candidate@,
                version@,
                old(store)@.active_scope(),
            ),
            r is Ok <==> old(store)@.installed.contains((candidate@, version@)),
            match r {
                Ok(out) => {
                    &&& out.message@ == "Using "@ + pair_text(candidate@, version@) + (
                    if old(store)@.overlay is Some {
                        " (local)"@
                    } else {
                        ""@
                    })
                    &&& views(out.steps@) == marker_steps(
                        old(store)@.kind,
                        candidate_home(
                            old(store)@.scope_root(old(store)@.active_scope())->0,
                            candidate@,
                        ),
                        installation_path(old(store)@.root, candidate@, version@),
                        version@,
                        old(store)@.markers(old(store)@.active_scope()).contains_key(candidate@),
                    )
                },
                Err(e) => e == SdkError::NotInstalled,
            },
    {
        if is_local_env(store) {
            match set_local_current_version(store, candidate, version) {
                Ok(steps) => Ok(
                    Outcome { message: phrase("Using ", candidate, version, " (local)"), steps },
                ),
                Err(e) => Err(e),
            }
        } else {
            match set_current_version(store, candidate, version) {
                Ok(steps) => Ok(Outcome { message: phrase("Using ", candidate, version, ""), steps }),
                Err(e) => Err(e),
            }
        }
    }
}

} // verus!
