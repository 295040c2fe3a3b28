//! The command that manages a project's descriptor and overlay.

use crate::commands::outcome::{
    pair_text, Param, param_views, ParamKind, ParamView, phrase, texts,
};
use crate::constants::{
    CANDIDATES_DIR, CURRENT_LINK, ENV_SCRIPT_NU, SDKMAN_DIR_NAME, SDKMAN_RC_FILE,
};
use crate::engine::descriptor::{descriptor_of, parse_descriptor};
use crate::engine::env::{
    clear_current_version, get_current_version, is_installed, is_local_env, marker_steps, Scope,
    set_current_version, set_local_current_version, Store, StoreView, unmark_steps,
};
use crate::engine::layout::{candidate_home, installation_path, join, join_path, marker_path};
use crate::engine::steps::{append_steps, FsStep, StepView, views};
use crate::error::SdkError;
use crate::utils::text::same_text;
use crate::utils::text_map::{distinct_keys, entries_map, Entry, TextMap};
use vstd::prelude::*;
use vstd::string::StringExecFns;

verus! {

/// The command that manages a project's descriptor and overlay.
#[derive(Clone, Copy, Debug)]
pub struct Env;

/// What the command is asked to do.
#[derive(Clone, Copy, Debug, PartialEq, Eq, Structural)]
pub enum EnvAction {
    /// Write a fresh descriptor and make the overlay.
    Init,
    /// Install what the descriptor declares, and make it current.
    Install,
    /// Take away the markers of the declared candidates.
    Clear,
    /// Make what the descriptor declares current.
    Load,
}

/// What a word given to the command asks for; no word asks to load.
pub open spec fn env_action(subcommand: Option<Seq<char>>) -> Option<EnvAction> {
    match subcommand {
        None => Some(EnvAction::Load),
        Some(word) => if word == "init"@ {
            Some(EnvAction::Init)
        } else if word == "install"@ {
            Some(EnvAction::Install)
        } else if word == "clear"@ {
            Some(EnvAction::Clear)
        } else {
            None
        },
    }
}

/// The lines that seed a fresh descriptor: one for each of the first `n`
/// candidates that has a current version in the store.
pub open spec fn seed_lines(s: StoreView, candidates: Seq<String>, n: int) -> Seq<char>
    decreases n,
{
    if n <= 0 {
        Seq::<char>::empty()
    } else {
        let before = seed_lines(s, candidates, n - 1);
        let c = candidates[n - 1]@;
        match s.current(c, Scope::Global) {
            Some(v) => if c == "current"@ {
                before
            } else {
                before + c + "="@ + v + "\n"@
            },
            None => before,
        }
    }
}

/// The text of a fresh descriptor.
pub open spec fn seed_text(s: StoreView, candidates: Seq<String>) -> Seq<char> {
    "# SDKMAN local environment\n# Add key=value pairs of SDKs to use below\n"@ + seed_lines(s, candidates, candidates.len() as int)
}

/// The record after the first `n` declarations were made current in the
/// active scope. A declaration whose installation does not exist changes
/// nothing.
pub open spec fn loaded(s: StoreView, es: Seq<Entry>, n: int) -> StoreView
    decreases n,
{
    if n <= 0 {
        s
    } else {
        loaded(s, es, n - 1).set_current(es[n - 1].key@, es[n - 1].value@, s.active_scope())
    }
}

/// The steps of one declaration that is made current.
pub open spec fn load_step(s: StoreView, e: Entry) -> Seq<StepView> {
    let scope = s.active_scope();
    if s.can_set(e.key@, e.value@, scope) {
        marker_steps(
            s.kind,
            candidate_home(s.scope_root(scope)->0, e.key@),
            installation_path(s.root, e.key@, e.value@),
            e.value@,
            s.markers(scope).contains_key(e.key@),
        )
    } else {
        Seq::<StepView>::empty()
    }
}

/// The steps that make the first `n` declarations current.
pub open spec fn load_steps(s: StoreView, es: Seq<Entry>, n: int) -> Seq<StepView>
    decreases n,
{
    if n <= 0 {
        Seq::<StepView>::empty()
    } else {
        load_steps(s, es, n - 1) + load_step(loaded(s, es, n - 1), es[n - 1])
    }
}

/// What is reported of one declaration.
pub open spec fn load_note(s: StoreView, e: Entry) -> Seq<char> {
    if !s.installed.contains((e.key@, e.value@)) {
        pair_text(e.key@, e.value@) + " not installed"@
    } else if s.overlay is Some {
        "Using "@ + pair_text(e.key@, e.value@) + " (local)"@
    } else {
        "Using "@ + pair_text(e.key@, e.value@) + ""@
    }
}

/// The record after the markers of the first `n` declared candidates were
/// taken away in the active scope.
pub open spec fn cleared(s: StoreView, es: Seq<Entry>, n: int) -> StoreView
    decreases n,
{
    if n <= 0 {
        s
    } else {
        cleared(s, es, n - 1).clear_current(es[n - 1].key@, s.active_scope())
    }
}

/// The steps that take the markers of the first `n` declared candidates away.
pub open spec fn clear_steps(s: StoreView, es: Seq<Entry>, n: int) -> Seq<StepView>
    decreases n,
{
    if n <= 0 {
        Seq::<StepView>::empty()
    } else {
        let before = cleared(s, es, n - 1);
        let scope = s.active_scope();
        clear_steps(s, es, n - 1) + unmark_steps(
            marker_path(before.scope_root(scope)->0, es[n - 1].key@),
            before.markers(scope).contains_key(es[n - 1].key@),
        )
    }
}

/// Making declarations current changes neither the installations nor the
/// scope, nor where the store and the overlay stand.
pub proof fn lemma_loaded_keeps(s: StoreView, es: Seq<Entry>, n: int)
    ensures
        loaded(s, es, n).installed == s.installed,
        loaded(s, es, n).overlay == s.overlay,
        loaded(s, es, n).root == s.root,
        loaded(s, es, n).kind == s.kind,
    decreases n,
{
    if n > 0 {
        lemma_loaded_keeps(s, es, n - 1);
    }
}

/// Clearing declared candidates touches no installation. In the overlay it
/// leaves the markers of the store as they are, too.
pub proof fn lemma_cleared_keeps(s: StoreView, es: Seq<Entry>, n: int)
    ensures
        cleared(s, es, n).installed == s.installed,
        cleared(s, es, n).overlay == s.overlay,
        cleared(s, es, n).root == s.root,
        cleared(s, es, n).kind == s.kind,
        s.overlay is Some ==> cleared(s, es, n).global == s.global,
    decreases n,
{
    if n > 0 {
        lemma_cleared_keeps(s, es, n - 1);
    }
}

impl Env {
    /// The name under which the command is called.
    pub fn name(&self) -> (r: &'static str)
        ensures
            r@ == "sdk env"@,
    {
        "sdk env"
    }

    /// One line on what the command does.
    pub fn description(&self) -> (r: &'static str)
        ensures
            r@ == "Manage .sdkmanrc files for project-specific SDK versions"@,
    {
        "Manage .sdkmanrc files for project-specific SDK versions"
    }

    /// The parameters of the command, in the order in which they are given.
    pub fn signature(&self) -> (r: Vec<Param>)
        ensures
            param_views(r@) == seq![
                ParamView {
                    kind: ParamKind::Optional,
                    name: "subcommand"@,
                    description: "Subcommand: init, install, clear, or empty to load"@,
                    short: None,
                },
            ],
    {
        let mut r: Vec<Param> = Vec::new();
        r.push(
            Param {
                kind: ParamKind::Optional,
                name: "subcommand",
                description: "Subcommand: init, install, clear, or empty to load",
                short: None,
            },
        );
        assert(param_views(r@) =~= seq![
            ParamView {
                kind: ParamKind::Optional,
                name: "subcommand"@,
                description: "Subcommand: init, install, clear, or empty to load"@,
                short: None,
            },
        ]);
        r
    }

    /// What the word given to the command asks for. A word that is none of
    /// `init`, `install` and `clear` is refused with `UnknownArgument`.
    pub fn run(&self, subcommand: Option<&str>) -> (r: Result<EnvAction, SdkError>)
        ensures
            match r {
                Ok(action) => env_action(
                    match subcommand {
                        Some(w) => Some(w@),
                        None => None,
                    },
                ) == Some(action),
                Err(e) => subcommand is Some && env_action(Some(subcommand->0@)) is None && e
                    == SdkError::UnknownArgument,
            },
    {
        match subcommand {
            None => Ok(EnvAction::Load),
            Some(word) => {
                if same_text(word, "init") {
                    Ok(EnvAction::Init)
                } else if same_text(word, "install") {
                    Ok(EnvAction::Install)
                } else if same_text(word, "clear") {
                    Ok(EnvAction::Clear)
                } else {
                    Err(SdkError::UnknownArgument)
                }
            },
        }
    }
}

/// The script that puts the overlay's current versions on the search path.
pub fn activation_script() -> (r: &'static str)
    ensures
        r@ == "# SDKMAN Local Environment\n# Source this file to activate local SDK versions\n\nexport-env {\n    let local_bins = (\n        try {\n            ls .sdkman/candidates/*/current/bin \n            | get name \n            | path expand\n        } catch {\n            []\n        }\n    )\n    \n    if ($local_bins | length) > 0 {\n        $env.PATH = ($env.PATH | prepend $local_bins)\n    }\n}\n"@,
{
    "# SDKMAN Local Environment\n# Source this file to activate local SDK versions\n\nexport-env {\n    let local_bins = (\n        try {\n            ls .sdkman/candidates/*/current/bin \n            | get name \n            | path expand\n        } catch {\n            []\n        }\n    )\n    \n    if ($local_bins | length) > 0 {\n        $env.PATH = ($env.PATH | prepend $local_bins)\n    }\n}\n"
}

/// Plans a fresh descriptor and the overlay of the project at `project`.
///
/// `candidates` are the candidates of the store, as its directory lists them.
/// Fails with `DescriptorExists` where the project has a descriptor. Else the
/// descriptor is seeded with the current version of every candidate that has
/// one, the overlay gets its directory of candidates, and the activation
/// script is written into it.
pub fn env_init(store: &Store, project: &str, descriptor_exists: bool, candidates: &Vec<String>) -> (r:
    Result<(String, Vec<FsStep>), SdkError>)
    requires
        store.wf(),
    ensures
        r is Ok <==> !descriptor_exists,
        match r {
            Ok(out) => {
                &&& out.0@ == "Created local SDKMAN environment in "@ + project@ + "\n\nTo activate:\n  source .sdkman/env.nu\n\nTo install SDKs locally:\n  source .sdkman/env.nu\n  sdk env install\n\nNote: SDKs are installed globally but symlinked locally for isolation."@
                &&& views(out.1@) == seq![
                    StepView::WriteFile {
                        path: join(project@, ".sdkmanrc"@),
                        content: seed_text(store@, candidates@),
                    },
                    StepView::CreateDirAll {
                        path: join(join(project@, ".sdkman"@), "candidates"@),
                    },
                    StepView::WriteFile {
                        path: join(join(project@, ".sdkman"@), "env.nu"@),
                        content: "# SDKMAN Local Environment\n# Source this file to activate local SDK versions\n\nexport-env {\n    let local_bins = (\n        try {\n            ls .sdkman/candidates/*/current/bin \n            | get name \n            | path expand\n        } catch {\n            []\n        }\n    )\n    \n    if ($local_bins | length) > 0 {\n        $env.PATH = ($env.PATH | prepend $local_bins)\n    }\n}\n"@,
                    },
                ]
            },
            Err(e) => e == SdkError::DescriptorExists,
        },
{
    if descriptor_exists {
        return Err(SdkError::DescriptorExists);
    }
    let mut content = String::from_str("# SDKMAN local environment\n# Add key=value pairs of SDKs to use below\n");
    let ghost head = content@;
    let mut i: usize = 0;
    assert(content@ =~= head + seed_lines(store@, candidates@, 0));
    while i < candidates.len()
        invariant
            store.wf(),
            i <= candidates@.len(),
            content@ == head + seed_lines(store@, candidates@, i as int),
        decreases candidates@.len() - i,
    {
        let name = candidates[i].as_str();
        match get_current_version(store, name, Scope::Global) {
            Some(v) => {
                if !same_text(name, CURRENT_LINK) {
                    let ghost before = content@;
                    content.append(name);
                    content.append("=");
                    content.append(v.as_str());
                    content.append("\n");
                    assert(content@ =~= head + (seed_lines(store@, candidates@, i as int) + name@
                        + "="@ + v@ + "\n"@));
                }
            },
            None => {},
        }
        i = i + 1;
    }
    let overlay = join_path(project, SDKMAN_DIR_NAME);
    let mut steps: Vec<FsStep> = Vec::new();
    steps.push(FsStep::WriteFile { path: join_path(project, SDKMAN_RC_FILE), content });
    steps.push(FsStep::CreateDirAll { path: join_path(overlay.as_str(), CANDIDATES_DIR) });
    steps.push(
        FsStep::WriteFile {
            path: join_path(overlay.as_str(), ENV_SCRIPT_NU),
            content: String::from_str(activation_script()),
        },
    );
    let mut message = String::from_str("Created local SDKMAN environment in ");
    message.append(project);
    message.append("\n\nTo activate:\n  source .sdkman/env.nu\n\nTo install SDKs locally:\n  source .sdkman/env.nu\n  sdk env install\n\nNote: SDKs are installed globally but symlinked locally for isolation.");
    assert(views(steps@) =~= seq![
        StepView::WriteFile {
            path: join(project@, ".sdkmanrc"@),
            content: seed_text(store@, candidates@),
        },
        StepView::CreateDirAll { path: join(join(project@, ".sdkman"@), "candidates"@) },
        StepView::WriteFile {
            path: join(join(project@, ".sdkman"@), "env.nu"@),
            content: "# SDKMAN Local Environment\n# Source this file to activate local SDK versions\n\nexport-env {\n    let local_bins = (\n        try {\n            ls .sdkman/candidates/*/current/bin \n            | get name \n            | path expand\n        } catch {\n            []\n        }\n    )\n    \n    if ($local_bins | length) > 0 {\n        $env.PATH = ($env.PATH | prepend $local_bins)\n    }\n}\n"@,
        },
    ]);
    Ok((message, steps))
}

/// Of the first `n` declarations, the positions of those whose installation
/// does not exist, in order.
pub open spec fn missing(s: StoreView, es: Seq<Entry>, n: int) -> Seq<usize>
    decreases n,
{
    if n <= 0 {
        Seq::<usize>::empty()
    } else if s.installed.contains((es[n - 1].key@, es[n - 1].value@)) {
        missing(s, es, n - 1)
    } else {
        missing(s, es, n - 1).push((n - 1) as usize)
    }
}

/// The record with the first `n` declared pairs installed.
pub open spec fn with_declared(s: StoreView, es: Seq<Entry>, n: int) -> StoreView
    decreases n,
{
    if n <= 0 {
        s
    } else {
        let before = with_declared(s, es, n - 1);
        StoreView {
            installed: before.installed.insert((es[n - 1].key@, es[n - 1].value@)),
            ..before
        }
    }
}

/// What `sdk env install` reports of the first `n` declarations: of each
/// whether it was installed already or has been installed now, and in the
/// overlay also that it has been linked there.
pub open spec fn install_notes(s: StoreView, es: Seq<Entry>, n: int) -> Seq<Seq<char>>
    decreases n,
{
    if n <= 0 {
        Seq::<Seq<char>>::empty()
    } else {
        let pair = pair_text(es[n - 1].key@, es[n - 1].value@);
        let first = if s.installed.contains((es[n - 1].key@, es[n - 1].value@)) {
            pair + " already installed"@
        } else {
            "Installed "@ + pair
        };
        let before = install_notes(s, es, n - 1).push(first);
        if s.overlay is Some {
            before.push("Linked "@ + pair + " locally"@)
        } else {
            before
        }
    }
}

/// Recording declared pairs as installed adds them to the installations and
/// changes nothing else.
pub proof fn lemma_with_declared(s: StoreView, es: Seq<Entry>, n: int)
    requires
        n <= es.len(),
    ensures
        with_declared(s, es, n).root == s.root,
        with_declared(s, es, n).overlay == s.overlay,
        with_declared(s, es, n).kind == s.kind,
        with_declared(s, es, n).global == s.global,
        with_declared(s, es, n).local == s.local,
        forall|i: int|
            0 <= i < n ==> with_declared(s, es, n).installed.contains(
                (#[trigger] es[i].key@, es[i].value@),
            ),
    decreases n,
{
    if n > 0 {
        lemma_with_declared(s, es, n - 1);
    }
}

/// Where every declared pair is installed, making the declarations current
/// leaves each candidate with the version that was declared for it last, in
/// the active scope, and leaves the markers of the other scope as they were.
pub proof fn lemma_loaded_all(s: StoreView, es: Seq<Entry>, n: int)
    requires
        n <= es.len(),
        forall|i: int| 0 <= i < n ==> s.installed.contains((#[trigger] es[i].key@, es[i].value@)),
    ensures
        loaded(s, es, n).installed == s.installed,
        loaded(s, es, n).overlay == s.overlay,
        loaded(s, es, n).root == s.root,
        s.overlay is Some ==> loaded(s, es, n).global == s.global,
        s.overlay is None ==> loaded(s, es, n).local == s.local,
        forall|i: int|
            0 <= i < n && (forall|j: int| i < j < n ==> es[j].key@ != es[i].key@) ==> loaded(
                s,
                es,
                n,
            ).current(#[trigger] es[i].key@, s.active_scope()) == Some(es[i].value@),
    decreases n,
{
    if n > 0 {
        lemma_loaded_all(s, es, n - 1);
        let before = loaded(s, es, n - 1);
        let scope = s.active_scope();
        assert(before.can_set(es[n - 1].key@, es[n - 1].value@, scope));
        assert forall|i: int|
            0 <= i < n && (forall|j: int| i < j < n ==> es[j].key@ != es[i].key@) implies loaded(
            s,
            es,
            n,
        ).current(#[trigger] es[i].key@, scope) == Some(es[i].value@) by {
            if i < n - 1 {
                assert(es[n - 1].key@ != es[i].key@);
                assert(before.current(es[i].key@, scope) == Some(es[i].value@));
            }
        }
    }
}

/// Installs what the declarations ask for and makes it current.
///
/// The first part of the result names the declarations whose installation
/// does not exist yet, in order: those the caller has to install before it
/// takes the steps. The record is the one that holds once that is done: every
/// declared pair is installed in the store, and current in the overlay where
/// the project has one, else in the store. In the overlay the markers of the
/// store stay as they are, and nothing but markers is made there.
pub fn install_declared(store: &mut Store, es: &Vec<Entry>) -> (r: (
    Vec<usize>,
    Vec<String>,
    Vec<FsStep>,
))
    requires
        old(store).wf(),
    ensures
        final(store).wf(),
        r.0@ == missing(old(store)@, es@, es@.len() as int),
        texts(r.1@) == install_notes(old(store)@, es@, es@.len() as int),
        final(store)@ == loaded(
            with_declared(old(store)@, es@, es@.len() as int),
            es@,
            es@.len() as int,
        ),
        forall|i: int|
            0 <= i < es@.len() ==> final(store)@.installed.contains(
                (#[trigger] es@[i].key@, es@[i].value@),
            ),
        distinct_keys(es@) ==> forall|i: int|
            0 <= i < es@.len() ==> final(store)@.current(
                #[trigger] es@[i].key@,
                old(store)@.active_scope(),
            ) == Some(es@[i].value@),
        final(store)@.global == old(store)@.global || old(store)@.overlay is None,
        views(r.2@) == load_steps(
            with_declared(old(store)@, es@, es@.len() as int),
            es@,
            es@.len() as int,
        ),
{
    let mut absent: Vec<usize> = Vec::new();
    let mut notes: Vec<String> = Vec::new();
    let local = is_local_env(store);
    let mut i: usize = 0;
    assert(texts(notes@) =~= install_notes(store@, es@, 0));
    while i < es.len()
        invariant
            store.wf(),
            *store == *old(store),
            local == (store@.overlay is Some),
            i <= es@.len(),
            absent@ == missing(store@, es@, i as int),
            texts(notes@) == install_notes(store@, es@, i as int),
        decreases es@.len() - i,
    {
        let candidate = es[i].key.as_str();
        let version = es[i].value.as_str();
        let ghost before = texts(notes@);
        let ghost pair = pair_text(candidate@, version@);
        proof {
            reveal_strlit("");
            assert(""@ + pair + " already installed"@ =~= pair + " already installed"@);
            assert("Installed "@ + pair + ""@ =~= "Installed "@ + pair);
        }
        if is_installed(store, candidate, version) {
            notes.push(phrase("", candidate, version, " already installed"));
            assert(texts(notes@) =~= before.push(pair + " already installed"@));
        } else {
            absent.push(i);
            notes.push(phrase("Installed ", candidate, version, ""));
            assert(texts(notes@) =~= before.push("Installed "@ + pair));
        }
        if local {
            let ghost first = texts(notes@);
            notes.push(phrase("Linked ", candidate, version, " locally"));
            assert(texts(notes@) =~= first.push("Linked "@ + pair + " locally"@));
        }
        i = i + 1;
    }
    let mut k: usize = 0;
    while k < es.len()
        invariant
            store.wf(),
            k <= es@.len(),
            store@ == with_declared(old(store)@, es@, k as int),
        decreases es@.len() - k,
    {
        store.record_installation(es[k].key.as_str(), es[k].value.as_str());
        k = k + 1;
    }
    let ghost all = store@;
    proof {
        lemma_with_declared(old(store)@, es@, es@.len() as int);
    }
    let loading = load_declared(store, es);
    proof {
        lemma_loaded_all(all, es@, es@.len() as int);
        if distinct_keys(es@) {
            assert forall|i: int| 0 <= i < es@.len() implies final(store)@.current(
                #[trigger] es@[i].key@,
                old(store)@.active_scope(),
            ) == Some(es@[i].value@) by {
                assert forall|j: int| i < j < es@.len() implies es@[j].key@ != es@[i].key@ by {}
            }
        }
    }
    (absent, notes, loading.1)
}

/// Makes the declared versions current, in the overlay where the project
/// has one, else in the store. A declaration whose installation does not
/// exist is reported and changes nothing.
pub fn load_declared(store: &mut Store, es: &Vec<Entry>) -> (r: (Vec<String>, Vec<FsStep>))
    requires
        old(store).wf(),
    ensures
        final(store).wf(),
        final(store)@ == loaded(old(store)@, es@, es@.len() as int),
        final(store)@.installed == old(store)@.installed,
        views(r.1@) == load_steps(old(store)@, es@, es@.len() as int),
        r.0@.len() == es@.len(),
        forall|i: int| 0 <= i < es@.len() ==> (#[trigger] r.0@[i])@ == load_note(old(store)@, es@[i]),
{
    let mut notes: Vec<String> = Vec::new();
    let mut steps: Vec<FsStep> = Vec::new();
    let local = is_local_env(store);
    let mut i: usize = 0;
    assert(views(steps@) =~= load_steps(old(store)@, es@, 0));
    while i < es.len()
        invariant
            store.wf(),
            i <= es@.len(),
            local == (old(store)@.overlay is Some),
            store@ == loaded(old(store)@, es@, i as int),
            views(steps@) == load_steps(old(store)@, es@, i as int),
            notes@.len() == i,
            forall|j: int| 0 <= j < i ==> (#[trigger] notes@[j])@ == load_note(old(store)@, es@[j]),
        decreases es@.len() - i,
    {
        proof {
            lemma_loaded_keeps(old(store)@, es@, i as int);
        }
        let candidate = es[i].key.as_str();
        let version = es[i].value.as_str();
        let set = if local {
            set_local_current_version(store, candidate, version)
        } else {
            set_current_version(store, candidate, version)
        };
        match set {
            Ok(more) => {
                notes.push(phrase("Using ", candidate, version, if local {
                    " (local)"
                } else {
                    ""
                }));
                append_steps(&mut steps, more);
            },
            Err(_) => {
                notes.push(phrase("", candidate, version, " not installed"));
                proof {
                    reveal_strlit("");
                    assert(""@ + pair_text(candidate@, version@) =~= pair_text(
                        candidate@,
                        version@,
                    ));
                    assert(views(steps@) + Seq::<StepView>::empty() =~= views(steps@));
                }
            },
        }
        i = i + 1;
    }
    proof {
        lemma_loaded_keeps(old(store)@, es@, es@.len() as int);
    }
    (notes, steps)
}

/// Takes the markers of the declared candidates away, in the overlay where
/// the project has one, else in the store. No installation is touched, and in
/// the overlay no marker of the store either.
pub fn clear_declared(store: &mut Store, es: &Vec<Entry>) -> (r: (String, Vec<FsStep>))
    requires
        old(store).wf(),
    ensures
        final(store).wf(),
        final(store)@ == cleared(old(store)@, es@, es@.len() as int),
        final(store)@.installed == old(store)@.installed,
        old(store)@.overlay is Some ==> final(store)@.global == old(store)@.global,
        views(r.1@) == clear_steps(old(store)@, es@, es@.len() as int),
        r.0@ == if old(store)@.overlay is Some {
            "Cleared local environment (global installations unaffected)"@
        } else {
            "Cleared environment"@
        },
{
    let mut steps: Vec<FsStep> = Vec::new();
    let local = is_local_env(store);
    let scope = if local {
        Scope::Local
    } else {
        Scope::Global
    };
    let mut i: usize = 0;
    assert(views(steps@) =~= clear_steps(old(store)@, es@, 0));
    while i < es.len()
        invariant
            store.wf(),
            i <= es@.len(),
            scope == old(store)@.active_scope(),
            store@ == cleared(old(store)@, es@, i as int),
            views(steps@) == clear_steps(old(store)@, es@, i as int),
        decreases es@.len() - i,
    {
        proof {
            lemma_cleared_keeps(old(store)@, es@, i as int);
        }
        let more = clear_current_version(store, es[i].key.as_str(), scope);
        append_steps(&mut steps, more);
        i = i + 1;
    }
    proof {
        lemma_cleared_keeps(old(store)@, es@, es@.len() as int);
    }
    let message = if local {
        String::from_str("Cleared local environment (global installations unaffected)")
    } else {
        String::from_str("Cleared environment")
    };
    (message, steps)
}

/// What one of the commands on a descriptor hands back.
#[derive(Debug, Clone)]
pub struct EnvOutcome {
    /// The declarations that were read, one for each candidate.
    pub entries: Vec<Entry>,
    /// The positions of the declarations that the caller has to install
    /// before it takes the steps.
    pub missing: Vec<usize>,
    /// What to tell the user, line by line.
    pub notes: Vec<String>,
    /// The steps that make the disk agree with the record.
    pub steps: Vec<FsStep>,
}

/// Whether a list of entries is what a descriptor text declares: one entry
/// for each declared candidate, with the version declared for it last.
pub open spec fn declares(es: Seq<Entry>, content: Seq<char>) -> bool {
    distinct_keys(es) && entries_map(es) == descriptor_of(content)
}

/// The message of `sdk env clear`.
pub open spec fn clear_message(s: StoreView) -> Seq<char> {
    if s.overlay is Some {
        "Cleared local environment (global installations unaffected)"@
    } else {
        "Cleared environment"@
    }
}

/// `sdk env install`: installs what the project's descriptor declares and
/// makes it current in the overlay where the project has one, else in the
/// store.
///
/// `content` is the text of the descriptor, or nothing where the project has
/// none: that is refused with `DescriptorNotFound`, and nothing changes.
/// Otherwise the caller installs the declarations named as missing, in order,
/// and then takes the steps. The record is the one that holds after that:
/// every declared pair is installed in the store and is the current version
/// of its candidate in the scope.
pub fn env_install(store: &mut Store, content: Option<&str>) -> (r: Result<EnvOutcome, SdkError>)
    requires
        old(store).wf(),
    ensures
        final(store).wf(),
        r is Ok <==> content is Some,
        match r {
            Err(e) => e == SdkError::DescriptorNotFound && *final(store) == *old(store),
            Ok(out) => {
                let es = out.entries@;
                let n = es.len() as int;
                &&& declares(es, content->0@)
                &&& out.missing@ == missing(old(store)@, es, n)
                &&& texts(out.notes@) == install_notes(old(store)@, es, n)
                &&& final(store)@ == loaded(with_declared(old(store)@, es, n), es, n)
                &&& views(out.steps@) == load_steps(with_declared(old(store)@, es, n), es, n)
                &&& forall|i: int|
                    0 <= i < n ==> final(store)@.installed.contains(
                        (#[trigger] es[i].key@, es[i].value@),
                    ) && final(store)@.current(es[i].key@, old(store)@.active_scope()) == Some(
                        es[i].value@,
                    )
                &&& (final(store)@.global == old(store)@.global || old(store)@.overlay is None)
            },
        },
{
    let map = match parse_sdkmanrc(content) {
        Ok(map) => map,
        Err(e) => {
            return Err(e);
        },
    };
    let entries = map.into_entries();
    let done = install_declared(store, &entries);
    Ok(EnvOutcome { entries, missing: done.0, notes: done.1, steps: done.2 })
}

/// `sdk env`: makes what the project's descriptor declares current, in the
/// overlay where the project has one, else in the store.
///
/// `content` is the text of the descriptor, or nothing where the project has
/// none: that is refused with `DescriptorNotFound`, and nothing changes. A
/// declaration whose installation does not exist is reported and changes
/// nothing; no installation is made or removed.
pub fn env_load(store: &mut Store, content: Option<&str>) -> (r: Result<EnvOutcome, SdkError>)
    requires
        old(store).wf(),
    ensures
        final(store).wf(),
        r is Ok <==> content is Some,
        match r {
            Err(e) => e == SdkError::DescriptorNotFound && *final(store) == *old(store),
            Ok(out) => {
                let es = out.entries@;
                let n = es.len() as int;
                &&& declares(es, content->0@)
                &&& out.missing@.len() == 0
                &&& out.notes@.len() == n
                &&& forall|i: int|
                    0 <= i < n ==> (#[trigger] out.notes@[i])@ == load_note(old(store)@, es[i])
                &&& final(store)@ == loaded(old(store)@, es, n)
                &&& final(store)@.installed == old(store)@.installed
                &&& views(out.steps@) == load_steps(old(store)@, es, n)
            },
        },
{
    let map = match parse_sdkmanrc(content) {
        Ok(map) => map,
        Err(e) => {
            return Err(e);
        },
    };
    let entries = map.into_entries();
    let done = load_declared(store, &entries);
    Ok(EnvOutcome { entries, missing: Vec::new(), notes: done.0, steps: done.1 })
}

/// `sdk env clear`: takes the markers of the declared candidates away, in
/// the overlay where the project has one, else in the store.
///
/// `content` is the text of the descriptor, or nothing where the project has
/// none: that is refused with `DescriptorNotFound`, and nothing changes.
/// No installation is touched, and in the overlay no marker of the store
/// either.
pub fn env_clear(store: &mut Store, content: Option<&str>) -> (r: Result<EnvOutcome, SdkError>)
    requires
        old(store).wf(),
    ensures
        final(store).wf(),
        r is Ok <==> content is Some,
        match r {
            Err(e) => e == SdkError::DescriptorNotFound && *final(store) == *old(store),
            Ok(out) => {
                let es = out.entries@;
                let n = es.len() as int;
                &&& declares(es, content->0@)
                &&& out.missing@.len() == 0
                &&& texts(out.notes@) == seq![clear_message(old(store)@)]
                &&& final(store)@ == cleared(old(store)@, es, n)
                &&& final(store)@.installed == old(store)@.installed
                &&& (old(store)@.overlay is Some ==> final(store)@.global == old(store)@.global)
                &&& views(out.steps@) == clear_steps(old(store)@, es, n)
            },
        },
{
    let map = match parse_sdkmanrc(content) {
        Ok(map) => map,
        Err(e) => {
            return Err(e);
        },
    };
    let entries = map.into_entries();
    let done = clear_declared(store, &entries);
    let mut notes: Vec<String> = Vec::new();
    notes.push(done.0);
    assert(texts(notes@) =~= seq![clear_message(old(store)@)]);
    Ok(EnvOutcome { entries, missing: Vec::new(), notes, steps: done.1 })
}

/// Reads the descriptor of a project, given the text of its file, or nothing
/// where the project has no such file: that is refused with
/// `DescriptorNotFound`. A file with lines that declare nothing is no error.
pub fn parse_sdkmanrc(content: Option<&str>) -> (r: Result<TextMap, SdkError>)
    ensures
        match r {
            Ok(map) => content is Some && map.wf() && map@ == descriptor_of(content->0@),
            Err(e) => content is None && e == SdkError::DescriptorNotFound,
        },
{
    match content {
        Some(text) => Ok(parse_descriptor(text)),
        None => Err(SdkError::DescriptorNotFound),
    }
}

/// Reads a descriptor text: the map from candidate to version that its
/// `key=value` lines declare. Lines that declare nothing are passed over, so
/// that every text has a meaning.
pub fn parse_sdkmanrc_content(content: &str) -> (r: Result<TextMap, SdkError>)
    ensures
        r is Ok,
        r->Ok_0.wf(),
        r->Ok_0@ == descriptor_of(content@),
{
    Ok(parse_descriptor(content))
}

} // verus!
