//! The command that installs a version.

use crate::commands::outcome::{
    Outcome, pair_text, Param, param_views, ParamKind, ParamView, phrase,
};
use crate::engine::api::{candidates_in, get_default_version, validate_candidate, versions_in};
use crate::engine::env::{is_installed, marker_steps, Scope, set_current_version, Store, StoreView};
use crate::engine::layout::{candidate_home, installation_path};
use crate::engine::steps::views;
use crate::error::SdkError;
use vstd::prelude::*;
use vstd::string::StringExecFns;

verus! {

/// The version that an installation is about: the one given, else the first
/// that the catalog lists.
pub open spec fn wanted(version: Option<Seq<char>>, versions: Seq<char>) -> Option<Seq<char>> {
    match version {
        Some(v) => Some(v),
        None => if versions_in(versions).len() > 0 {
            Some(versions_in(versions)[0])
        } else {
            None
        },
    }
}

/// The command that installs a version.
#[derive(Clone, Copy, Debug)]
pub struct Install;

impl Install {
    /// The name under which the command is called.
    pub fn name(&self) -> (r: &'static str)
        ensures
            r@ == "sdk install"@,
    {
        "sdk install"
    }

    /// One line on what the command does.
    pub fn description(&self) -> (r: &'static str)
        ensures
            r@ == "Install a candidate version"@,
    {
        "Install a candidate version"
    }

    /// The parameters of the command, in the order in which they are given.
    pub fn signature(&self) -> (r: Vec<Param>)
        ensures
            param_views(r@) == seq![
                ParamView {
                    kind: ParamKind::Required,
                    name: "candidate"@,
                    description: "Candidate to install"@,
                    short: None,
                },
                ParamView {
                    kind: ParamKind::Optional,
                    name: "version"@,
                    description: "Version to install (defaults to latest)"@,
                    short: None,
                },
                ParamView {
                    kind: ParamKind::Named,
                    name: "local"@,
                    description: "Install from local archive path"@,
                    short: Some('l'),
                },
            ],
    {
        let mut r: Vec<Param> = Vec::new();
        r.push(
            Param {
                kind: ParamKind::Required,
                name: "candidate",
                description: "Candidate to install",
                short: None,
            },
        );
        r.push(
            Param {
                kind: ParamKind::Optional,
                name: "version",
                description: "Version to install (defaults to latest)",
                short: None,
            },
        );
        r.push(
            Param {
                kind: ParamKind::Named,
                name: "local",
                description: "Install from local archive path",
                short: Some('l'),
            },
        );
        assert(param_views(r@) =~= seq![
            ParamView {
                kind: ParamKind::Required,
                name: "candidate"@,
                description: "Candidate to install"@,
                short: None,
            },
            ParamView {
                kind: ParamKind::Optional,
                name: "version"@,
                description: "Version to install (defaults to latest)"@,
                short: None,
            },
            ParamView {
                kind: ParamKind::Named,
                name: "local"@,
                description: "Install from local archive path"@,
                short: Some('l'),
            },
        ]);
        r
    }

    /// Decides which version is to be installed.
    ///
    /// `candidates` and `versions` are the catalog's comma-separated lists of
    /// all candidates and of the versions of this candidate. The candidate
    /// has to be in the catalog, else `UnknownCandidate`. The version is the
    /// one given, else the first that the catalog lists, and `NoVersions`
    /// where it lists none. A version that is installed already is refused
    /// with `AlreadyInstalled`.
    pub fn run(
        &self,
        store: &Store,
        candidate: &str,
        version: Option<&str>,
        candidates: &str,
        versions: &str,
    ) -> (r: Result<String, SdkError>)
        ensures
            match r {
                Ok(v) => {
                    &&& candidates_in(candidates@).contains(candidate@)
                    &&& wanted(
                        match version {
                            Some(v) => Some(v@),
                            None => None,
                        },
                        versions@,
                    ) == Some(v@)
                    &&& !store@.installed.contains((candidate@, v@))
                },
                Err(e) => {
                    let w = wanted(
                        match version {
                            Some(v) => Some(v@),
                            None => None,
                        },
                        versions@,
                    );
                    if !candidates_in(candidates@).contains(candidate@) {
                        e == SdkError::UnknownCandidate
                    } else if w is None {
                        e == SdkError::NoVersions
                    } else {
                        e == SdkError::AlreadyInstalled && store@.installed.contains(
                            (candidate@, w->0),
                        )
                    }
                },
            },
    {
        match validate_candidate(candidate, candidates) {
            Ok(_) => {},
            Err(e) => {
                return Err(e);
            },
        }
        let target: String = match version {
            Some(v) => String::from_str(v),
            None => match get_default_version(versions) {
                Ok(v) => v,
                Err(e) => {
                    return Err(e);
                },
            },
        };
        if is_installed(store, candidate, target.as_str()) {
            return Err(SdkError::AlreadyInstalled);
        }
        Ok(target)
    }

    /// Records an installation that was placed, and makes it the current
    /// version of its candidate in the store.
    pub fn complete(&self, store: &mut Store, candidate: &str, version: &str) -> (out: Outcome)
        requires
            old(store).wf(),
        ensures
            final(store).wf(),
            final(store)@ == (StoreView {
                installed: old(store)@.installed.insert((candidate@, version@)),
                global: old(store)@.global.insert(candidate@, version@),
                ..old(store)@
            }),
            final(store)@.current(candidate@, Scope::Global) == Some(version@),
            out.message@ == pair_text(candidate@, version@) + " installed successfully"@,
            views(out.steps@) == marker_steps(
                old(store)@.kind,
                candidate_home(old(store)@.root, candidate@),
                installation_path(old(store)@.root, candidate@, version@),
                version@,
                old(store)@.global.contains_key(candidate@),
            ),
    {
        store.record_installation(candidate, version);
        let steps = match set_current_version(store, candidate, version) {
            Ok(steps) => steps,
            Err(_) => Vec::new(),
        };
        proof {
            reveal_strlit("");
            assert(""@ + pair_text(candidate@, version@) =~= pair_text(candidate@, version@));
        }
        Outcome { message: phrase("", candidate, version, " installed successfully"), steps }
    }
}

} // verus!
