//! The command that moves a candidate to its latest version.

use crate::commands::current::{Current, with_current};
use crate::commands::outcome::{Outcome, Param, param_views, ParamKind, ParamView};
use crate::engine::env::{get_current_version, marker_steps, Scope, set_current_version, Store};
use crate::engine::layout::{candidate_home, installation_path};
use crate::engine::steps::views;
use crate::error::SdkError;
use crate::utils::pair_set::Pair;
use crate::utils::text::same_text;
use vstd::prelude::*;
use vstd::string::StringExecFns;

verus! {

/// What is to be done to get a candidate to its latest version.
#[derive(Debug, Clone)]
pub enum UpgradeAction {
    /// Nothing: the current version is the latest.
    UpToDate { message: String },
    /// The latest version was installed already and has been made current.
    Switch { out: Outcome },
    /// The latest version has to be installed and then made current; the
    /// message is the one to give once that is done.
    Install { message: String },
}

/// The message of an upgrade.
pub open spec fn upgraded_text(candidate: Seq<char>, from: Seq<char>, to: Seq<char>) -> Seq<char> {
    "Upgraded "@ + candidate + " from "@ + from + " to "@ + to
}

/// The command that moves a candidate to its latest version.
#[derive(Clone, Copy, Debug)]
pub struct Upgrade;

impl Upgrade {
    /// The name under which the command is called.
    pub fn name(&self) -> (r: &'static str)
        ensures
            r@ == "sdk upgrade"@,
    {
        "sdk upgrade"
    }

    /// One line on what the command does.
    pub fn description(&self) -> (r: &'static str)
        ensures
            r@ == "Upgrade candidate to latest version"@,
    {
        "Upgrade candidate to latest version"
    }

    /// The parameters of the command, in the order in which they are given.
    pub fn signature(&self) -> (r: Vec<Param>)
        ensures
            param_views(r@) == seq![
                ParamView {
                    kind: ParamKind::Optional,
                    name: "candidate"@,
                    description: "Candidate to upgrade (upgrades all if not specified)"@,
                    short: None,
                },
            ],
    {
        let mut r: Vec<Param> = Vec::new();
        r.push(
            Param {
                kind: ParamKind::Optional,
                name: "candidate",
                description: "Candidate to upgrade (upgrades all if not specified)",
                short: None,
            },
        );
        assert(param_views(r@) =~= seq![
            ParamView {
                kind: ParamKind::Optional,
                name: "candidate"@,
                description: "Candidate to upgrade (upgrades all if not specified)"@,
                short: None,
            },
        ]);
        r
    }

    /// Decides how a candidate gets to the version `latest`.
    ///
    /// Fails with `NoCurrentVersion`, and changes nothing, where the
    /// candidate has no current version in the store. Where the current
    /// version is the latest, nothing is to do. Where the latest version is
    /// installed, it is made current. Otherwise it has to be installed first.
    pub fn upgrade_candidate(&self, store: &mut Store, candidate: &str, latest: &str) -> (r: Result<
        UpgradeAction,
        SdkError,
    >)
        requires
            old(store).wf(),
        ensures
            final(store).wf(),
            match r {
                Err(e) => {
                    &&& e == SdkError::NoCurrentVersion
                    &&& old(store)@.current(candidate@, Scope::Global) is None
                    &&& *final(store) == *old(store)
                },
                Ok(UpgradeAction::UpToDate { message }) => {
                    &&& old(store)@.current(candidate@, Scope::Global) == Some(latest@)
                    &&& *final(store) == *old(store)
                    &&& message@ == candidate@ + " is already at the latest version ("@ + latest@
                        + ")"@
                },
                Ok(UpgradeAction::Switch { out }) => {
                    let from = old(store)@.current(candidate@, Scope::Global);
                    &&& from is Some
                    &&& from != Some(latest@)
                    &&& old(store)@.installed.contains((candidate@, latest@))
                    &&& final(store)@ == old(store)@.set_current(
                        candidate@,
                        latest@,
                        Scope::Global,
                    )
                    &&& out.message@ == upgraded_text(candidate@, from->0, latest@)
                    &&& views(out.steps@) == marker_steps(
                        old(store)@.kind,
                        candidate_home(old(store)@.root, candidate@),
                        installation_path(old(store)@.root, candidate@, latest@),
                        latest@,
                        true,
                    )
                },
                Ok(UpgradeAction::Install { message }) => {
                    let from = old(store)@.current(candidate@, Scope::Global);
                    &&& from is Some
                    &&& !old(store)@.installed.contains((candidate@, latest@))
                    &&& *final(store) == *old(store)
                    &&& message@ == upgraded_text(candidate@, from->0, latest@)
                },
            },
    {
        let current: String = match get_current_version(store, candidate, Scope::Global) {
            Some(v) => v,
            None => {
                return Err(SdkError::NoCurrentVersion);
            },
        };
        if same_text(current.as_str(), latest) {
            let mut message = String::from_str(candidate);
            message.append(" is already at the latest version (");
            message.append(latest);
            message.append(")");
            return Ok(UpgradeAction::UpToDate { message });
        }
        let mut message = String::from_str("Upgraded ");
        message.append(candidate);
        message.append(" from ");
        message.append(current.as_str());
        message.append(" to ");
        message.append(latest);
        match set_current_version(store, candidate, latest) {
            Ok(steps) => Ok(UpgradeAction::Switch { out: Outcome { message, steps } }),
            Err(_) => Ok(UpgradeAction::Install { message }),
        }
    }

    /// Of the given candidates, those that can be upgraded: the ones with a
    /// current version in the store, each with that version, in the order
    /// given.
    pub fn upgrade_all(&self, store: &Store, candidates: &Vec<String>) -> (r: Vec<Pair>)
        requires
            store.wf(),
        ensures
            r@.map_values(|p: Pair| p@) == with_current(store@, candidates@, candidates@.len() as int),
    {
        Current.show_all_current(store, candidates)
    }
}

} // verus!
