//! The command that removes an installation.

use crate::commands::outcome::{
    Outcome, pair_text, Param, param_views, ParamKind, ParamView, phrase,
};
use crate::engine::env::{
    clear_current_version, is_installed, Scope, Store, StoreView, unmark_steps,
};
use crate::engine::layout::{candidate_dir, installation_path, marker_path};
use crate::engine::steps::{append_steps, FsStep, StepView, views};
use crate::error::SdkError;
use vstd::prelude::*;

verus! {

/// Whether the marker of a candidate in a scope names the version.
pub open spec fn marker_names(
    s: StoreView,
    candidate: Seq<char>,
    version: Seq<char>,
    scope: Scope,
) -> bool {
    s.markers(scope).contains_key(candidate) && s.markers(scope)[candidate] == version
}

/// The markers of a scope without the marker that names the version.
pub open spec fn without_marker(
    s: StoreView,
    candidate: Seq<char>,
    version: Seq<char>,
    scope: Scope,
) -> Map<Seq<char>, Seq<char>> {
    if marker_names(s, candidate, version, scope) {
        s.markers(scope).remove(candidate)
    } else {
        s.markers(scope)
    }
}

/// The record after an installation was removed: the installation is gone,
/// and so is every marker that named it. Where the installation did not exist
/// the record is as it was.
pub open spec fn uninstalled(s: StoreView, candidate: Seq<char>, version: Seq<char>) -> StoreView {
    if s.installed.contains((candidate, version)) {
        StoreView {
            installed: s.installed.remove((candidate, version)),
            global: without_marker(s, candidate, version, Scope::Global),
            local: without_marker(s, candidate, version, Scope::Local),
            ..s
        }
    } else {
        s
    }
}

/// The steps that remove an installation and the markers that name it.
pub open spec fn uninstall_steps(
    s: StoreView,
    candidate: Seq<char>,
    version: Seq<char>,
) -> Seq<StepView> {
    seq![StepView::RemoveAll { path: installation_path(s.root, candidate, version) }]
        + unmark_steps(
        marker_path(s.root, candidate),
        marker_names(s, candidate, version, Scope::Global),
    ) + (match s.overlay {
        Some(dir) => unmark_steps(
            marker_path(dir, candidate),
            marker_names(s, candidate, version, Scope::Local),
        ),
        None => Seq::<StepView>::empty(),
    })
}

/// Whether the marker of a candidate in a scope names the version.
fn names(store: &Store, candidate: &str, version: &str, scope: Scope) -> (r: bool)
    requires
        store.wf(),
    ensures
        r == marker_names(store@, candidate@, version@, scope),
{
    match store.marker(candidate, scope) {
        Some(v) => crate::utils::text::same_text(v.as_str(), version),
        None => false,
    }
}

/// The command that removes an installation.
#[derive(Clone, Copy, Debug)]
pub struct Uninstall;

impl Uninstall {
    /// The name under which the command is called.
    pub fn name(&self) -> (r: &'static str)
        ensures
            r@ == "sdk uninstall"@,
    {
        "sdk uninstall"
    }

    /// One line on what the command does.
    pub fn description(&self) -> (r: &'static str)
        ensures
            r@ == "Uninstall a candidate version"@,
    {
        "Uninstall a candidate version"
    }

    /// The parameters of the command, in the order in which they are given.
    pub fn signature(&self) -> (r: Vec<Param>)
        ensures
            param_views(r@) == seq![
                ParamView {
                    kind: ParamKind::Required,
                    name: "candidate"@,
                    description: "Candidate to uninstall"@,
                    short: None,
                },
                ParamView {
                    kind: ParamKind::Required,
                    name: "version"@,
                    description: "Version to uninstall"@,
                    short: None,
                },
            ],
    {
        let mut r: Vec<Param> = Vec::new();
        r.push(
            Param {
                kind: ParamKind::Required,
                name: "candidate",
                description: "Candidate to uninstall",
                short: None,
            },
        );
        r.push(
            Param {
                kind: ParamKind::Required,
                name: "version",
                description: "Version to uninstall",
                short: None,
            },
        );
        assert(param_views(r@) =~= seq![
            ParamView {
                kind: ParamKind::Required,
                name: "candidate"@,
                description: "Candidate to uninstall"@,
                short: None,
            },
            ParamView {
                kind: ParamKind::Required,
                name: "version"@,
                description: "Version to uninstall"@,
                short: None,
            },
        ]);
        r
    }

    /// Removes the installation of `version` of `candidate`, and with it
    /// every marker that names it, in the store and in the overlay.
    ///
    /// Fails with `NotInstalled`, and changes nothing, where the installation
    /// does not exist.
    pub fn run(&self, store: &mut Store, candidate: &str, version: &str) -> (r: Result<
        Outcome,
        SdkError,
    >)
        requires
            old(store).wf(),
        ensures
            final(store).wf(),
            final(store)@ == uninstalled(old(store)@, candidate@, version@),
            r is Ok <==> old(store)@.installed.contains((candidate@, version@)),
            match r {
                Ok(out) => {
                    &&& out.message@ == pair_text(candidate@, version@)
                        + " uninstalled successfully"@
                    &&& views(out.steps@) == uninstall_steps(old(store)@, candidate@, version@)
                },
                Err(e) => e == SdkError::NotInstalled,
            },
    {
        if !is_installed(store, candidate, version) {
            return Err(SdkError::NotInstalled);
        }
        let mut steps: Vec<FsStep> = Vec::new();
        steps.push(FsStep::RemoveAll { path: candidate_dir(store.root(), candidate, version) });
        let ghost first = views(steps@);
        let global = names(store, candidate, version, Scope::Global);
        let local = names(store, candidate, version, Scope::Local);
        store.forget_installation(candidate, version);
        let mut second: Vec<FsStep> = Vec::new();
        if global {
            second = clear_current_version(store, candidate, Scope::Global);
        }
        let mut third: Vec<FsStep> = Vec::new();
        if local {
            third = clear_current_version(store, candidate, Scope::Local);
        }
        let ghost a = views(steps@);
        let ghost b = views(second@);
        let ghost c = views(third@);
        append_steps(&mut steps, second);
        append_steps(&mut steps, third);
        proof {
            reveal_strlit("");
            assert(""@ + pair_text(candidate@, version@) =~= pair_text(candidate@, version@));
            assert(a =~= seq![
                StepView::RemoveAll {
                    path: installation_path(old(store)@.root, candidate@, version@),
                },
            ]);
            assert(b =~= unmark_steps(
                marker_path(old(store)@.root, candidate@),
                marker_names(old(store)@, candidate@, version@, Scope::Global),
            ));
            assert(c =~= (match old(store)@.overlay {
                Some(dir) => unmark_steps(
                    marker_path(dir, candidate@),
                    marker_names(old(store)@, candidate@, version@, Scope::Local),
                ),
                None => Seq::<StepView>::empty(),
            }));
            assert(views(steps@) =~= a + b + c);
        }
        Ok(Outcome { message: phrase("", candidate, version, " uninstalled successfully"), steps })
    }
}

} // verus!
