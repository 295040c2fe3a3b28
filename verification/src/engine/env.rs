//! The candidate store and its current-version markers.
//!
//! A `Store` records what is known of one store on disk: which installations
//! exist and which version each marker names, in the global scope and in the
//! overlay of a project. Queries answer from the record. Changes update the
//! record and hand back the steps that make the disk agree with it.

use crate::constants::{CANDIDATES_DIR, CURRENT_LINK, SDKMAN_DIR_NAME, VERSION_MARKER};
use crate::engine::layout::{
    candidate_current, candidate_dir, candidate_home, candidates_path, installation_path,
    is_segment, join, join_path, last_segment, lemma_last_segment_of_join, marker_path,
};
use crate::engine::steps::{FsStep, StepView, views};
use crate::error::SdkError;
use crate::utils::pair_set::PairSet;
use crate::utils::text::{chars_of, is_space, same_text, span_starts_with, trim};
use crate::utils::text_map::TextMap;
use vstd::prelude::*;
use vstd::string::StringExecFns;

verus! {

/// How a marker is kept on disk.
#[derive(Clone, Copy, Debug, PartialEq, Eq, Structural)]
pub enum MarkerKind {
    /// A symbolic link to the installation.
    Symlink,
    /// A directory that holds a file with the version's name, for platforms
    /// on which a link needs a privilege.
    Directory,
}

/// Where a marker applies.
#[derive(Clone, Copy, Debug, PartialEq, Eq, Structural)]
pub enum Scope {
    /// Everywhere: the marker stands in the store itself.
    Global,
    /// In one project: the marker stands in the project's overlay.
    Local,
}

/// The platform token of an operating system and an architecture, where one
/// exists.
pub open spec fn platform_token(os: Seq<char>, arch: Seq<char>) -> Option<Seq<char>> {
    if os == "linux"@ && arch == "x86_64"@ {
        Some("linuxx64"@)
    } else if os == "linux"@ && arch == "aarch64"@ {
        Some("linuxarm64"@)
    } else if os == "macos"@ && arch == "x86_64"@ {
        Some("darwinx64"@)
    } else if os == "macos"@ && arch == "aarch64"@ {
        Some("darwinarm64"@)
    } else if os == "windows"@ && arch == "x86_64"@ {
        Some("windowsx64"@)
    } else {
        None
    }
}

/// The token by which the catalog knows the platform.
pub fn detect_platform(os: &str, arch: &str) -> (r: Result<String, SdkError>)
    ensures
        match r {
            Ok(token) => platform_token(os@, arch@) == Some(token@),
            Err(e) => platform_token(os@, arch@) is None && e == SdkError::UnsupportedPlatform,
        },
{
    let x64 = same_text(arch, "x86_64");
    let arm64 = same_text(arch, "aarch64");
    if same_text(os, "linux") {
        if x64 {
            return Ok(String::from_str("linuxx64"));
        }
        if arm64 {
            return Ok(String::from_str("linuxarm64"));
        }
    }
    if same_text(os, "macos") {
        if x64 {
            return Ok(String::from_str("darwinx64"));
        }
        if arm64 {
            return Ok(String::from_str("darwinarm64"));
        }
    }
    if same_text(os, "windows") && x64 {
        return Ok(String::from_str("windowsx64"));
    }
    Err(SdkError::UnsupportedPlatform)
}

/// The marker kind that a platform uses: a directory on Windows, a symbolic
/// link everywhere else.
pub fn marker_kind_of(os: &str) -> (r: MarkerKind)
    ensures
        r == if os@ == "windows"@ {
            MarkerKind::Directory
        } else {
            MarkerKind::Symlink
        },
{
    if same_text(os, "windows") {
        MarkerKind::Directory
    } else {
        MarkerKind::Symlink
    }
}

/// The root of the store: the configured directory where one is given, else
/// `.sdkman` in the home directory.
pub fn sdkman_dir(configured: Option<&str>, home: Option<&str>) -> (r: Result<String, SdkError>)
    ensures
        match r {
            Ok(root) => match configured {
                Some(dir) => root@ == dir@,
                None => home is Some && root@ == join(home->0@, ".sdkman"@),
            },
            Err(e) => configured is None && home is None && e == SdkError::NoHomeDirectory,
        },
{
    match configured {
        Some(dir) => Ok(String::from_str(dir)),
        None => match home {
            Some(h) => Ok(join_path(h, SDKMAN_DIR_NAME)),
            None => Err(SdkError::NoHomeDirectory),
        },
    }
}

/// The overlay directory of the project at `project`.
pub fn overlay_dir(project: &str) -> (r: String)
    ensures
        r@ == join(project@, ".sdkman"@),
{
    join_path(project, SDKMAN_DIR_NAME)
}

/// What a `Store` records.
pub struct StoreView {
    /// The root of the store.
    pub root: Seq<char>,
    /// The root of the project's overlay, where the project has one.
    pub overlay: Option<Seq<char>>,
    /// How markers are kept.
    pub kind: MarkerKind,
    /// The installations that exist, as pairs of candidate and version.
    pub installed: Set<(Seq<char>, Seq<char>)>,
    /// The version that each global marker names.
    pub global: Map<Seq<char>, Seq<char>>,
    /// The version that each marker of the overlay names.
    pub local: Map<Seq<char>, Seq<char>>,
}

impl StoreView {
    /// The markers of a scope.
    pub open spec fn markers(self, scope: Scope) -> Map<Seq<char>, Seq<char>> {
        match scope {
            Scope::Global => self.global,
            Scope::Local => self.local,
        }
    }

    /// The record with the markers of a scope replaced.
    pub open spec fn with_markers(self, scope: Scope, m: Map<Seq<char>, Seq<char>>) -> StoreView {
        match scope {
            Scope::Global => StoreView { global: m, ..self },
            Scope::Local => StoreView { local: m, ..self },
        }
    }

    /// The directory below which the markers of a scope stand, where the
    /// scope exists.
    pub open spec fn scope_root(self, scope: Scope) -> Option<Seq<char>> {
        match scope {
            Scope::Global => Some(self.root),
            Scope::Local => self.overlay,
        }
    }

    /// The current version of a candidate in a scope: the version that the
    /// marker names, provided that its installation exists. A marker that
    /// names a missing installation counts as no marker.
    pub open spec fn current(self, candidate: Seq<char>, scope: Scope) -> Option<Seq<char>> {
        let m = self.markers(scope);
        if m.contains_key(candidate) && self.installed.contains((candidate, m[candidate])) {
            Some(m[candidate])
        } else {
            None
        }
    }

    /// Whether a marker for `version` can be put in place: the scope exists
    /// and the installation does.
    pub open spec fn can_set(self, candidate: Seq<char>, version: Seq<char>, scope: Scope) -> bool {
        self.scope_root(scope) is Some && self.installed.contains((candidate, version))
    }

    /// The record after `version` was made current: the marker names it where
    /// that can be done, and nothing has changed where it cannot.
    pub open spec fn set_current(
        self,
        candidate: Seq<char>,
        version: Seq<char>,
        scope: Scope,
    ) -> StoreView {
        if self.can_set(candidate, version, scope) {
            self.with_markers(scope, self.markers(scope).insert(candidate, version))
        } else {
            self
        }
    }

    /// The record after the marker of a candidate was taken away.
    pub open spec fn clear_current(self, candidate: Seq<char>, scope: Scope) -> StoreView {
        self.with_markers(scope, self.markers(scope).remove(candidate))
    }

    /// The scope in which a project's commands act: the overlay where the
    /// project has one, else the store itself.
    pub open spec fn active_scope(self) -> Scope {
        if self.overlay is Some {
            Scope::Local
        } else {
            Scope::Global
        }
    }
}

/// The record of one store.
#[derive(Debug, Clone)]
pub struct Store {
    root: String,
    overlay: Option<String>,
    kind: MarkerKind,
    installs: PairSet,
    global: TextMap,
    local: TextMap,
}

impl View for Store {
    type V = StoreView;

    closed spec fn view(&self) -> StoreView {
        StoreView {
            root: self.root@,
            overlay: match self.overlay {
                Some(dir) => Some(dir@),
                None => None,
            },
            kind: self.kind,
            installed: self.installs@,
            global: self.global@,
            local: self.local@,
        }
    }
}

/// The installations that are known once the first `n` names of a
/// candidate's directory have been read: each name is a version, but for
/// `current`, which is the marker.
pub open spec fn with_listing(
    installed: Set<(Seq<char>, Seq<char>)>,
    candidate: Seq<char>,
    listing: Seq<String>,
    n: int,
) -> Set<(Seq<char>, Seq<char>)>
    decreases n,
{
    if n <= 0 {
        installed
    } else if listing[n - 1]@ == "current"@ {
        with_listing(installed, candidate, listing, n - 1)
    } else {
        with_listing(installed, candidate, listing, n - 1).insert((candidate, listing[n - 1]@))
    }
}

/// The steps that put a marker in place.
///
/// The directory of the candidate is made first. A marker that stands there is
/// removed whole, whichever kind it is of. Then the new marker is made: a link
/// to the installation, or a directory with the version file in it. Should the
/// making fail, no marker is left, since the old one went before.
pub open spec fn marker_steps(
    kind: MarkerKind,
    home: Seq<char>,
    target: Seq<char>,
    version: Seq<char>,
    replaces: bool,
) -> Seq<StepView> {
    let link = join(home, "current"@);
    let prepare = if replaces {
        seq![StepView::CreateDirAll { path: home }, StepView::RemoveAll { path: link }]
    } else {
        seq![StepView::CreateDirAll { path: home }]
    };
    let make = match kind {
        MarkerKind::Symlink => seq![StepView::Symlink { target: target, link: link }],
        MarkerKind::Directory => seq![
            StepView::CreateDirAll { path: link },
            StepView::WriteFile { path: join(link, ".version"@), content: version },
        ],
    };
    prepare + make
}

/// The steps that take a marker away: none where none stands.
pub open spec fn unmark_steps(link: Seq<char>, present: bool) -> Seq<StepView> {
    if present {
        seq![StepView::RemoveAll { path: link }]
    } else {
        Seq::<StepView>::empty()
    }
}

impl Store {
    /// The parts of the record hold no entry twice. Every function that hands
    /// out a store establishes this, and every function that changes one
    /// keeps it.
    pub closed spec fn wf(&self) -> bool {
        &&& self.installs.wf()
        &&& self.global.wf()
        &&& self.local.wf()
        &&& match self.overlay {
            Some(dir) => apart(self.root@, dir@),
            None => true,
        }
    }

    /// The overlay of a record stands apart from the store.
    pub proof fn lemma_overlay_apart(&self)
        requires
            self.wf(),
        ensures
            self@.overlay is Some ==> apart(self@.root, self@.overlay->0),
    {
    }

    /// The record of a store of which nothing is known yet.
    pub fn new(root: &str, kind: MarkerKind) -> (r: Store)
        ensures
            r.wf(),
            r@ == (StoreView {
                root: root@,
                overlay: None,
                kind: kind,
                installed: Set::empty(),
                global: Map::empty(),
                local: Map::empty(),
            }),
    {
        Store {
            root: String::from_str(root),
            overlay: None,
            kind,
            installs: PairSet::new(),
            global: TextMap::new(),
            local: TextMap::new(),
        }
    }

    /// Records that the project has an overlay at `dir`, provided that the
    /// directory stands apart from the store. A directory that is the store,
    /// or stands inside it, or holds the store among its candidates, is no
    /// overlay: the record has none then, and every command acts on the store.
    pub fn set_overlay(&mut self, dir: &str)
        requires
            old(self).wf(),
        ensures
            final(self).wf(),
            final(self)@ == (StoreView {
                overlay: if apart(old(self)@.root, dir@) {
                    Some(dir@)
                } else {
                    None
                },
                ..old(self)@
            }),
    {
        let inside = at_or_under(self.root.as_str(), dir);
        let all = join_path(dir, CANDIDATES_DIR);
        let holds = at_or_under(all.as_str(), self.root.as_str());
        if inside || holds {
            self.overlay = None;
        } else {
            self.overlay = Some(String::from_str(dir));
        }
    }

    /// Records that an installation exists.
    pub fn record_installation(&mut self, candidate: &str, version: &str)
        requires
            old(self).wf(),
        ensures
            final(self).wf(),
            final(self)@ == (StoreView {
                installed: old(self)@.installed.insert((candidate@, version@)),
                ..old(self)@
            }),
    {
        self.installs.insert(String::from_str(candidate), String::from_str(version));
    }

    /// Records the installations of a candidate, given what the candidate's
    /// directory lists: every name in it is a version, but for the name of
    /// the marker.
    pub fn record_versions(&mut self, candidate: &str, listing: &Vec<String>)
        requires
            old(self).wf(),
        ensures
            final(self).wf(),
            final(self)@ == (StoreView {
                installed: with_listing(
                    old(self)@.installed,
                    candidate@,
                    listing@,
                    listing@.len() as int,
                ),
                ..old(self)@
            }),
    {
        let mut i: usize = 0;
        while i < listing.len()
            invariant
                self.wf(),
                i <= listing@.len(),
                self@ == (StoreView {
                    installed: with_listing(old(self)@.installed, candidate@, listing@, i as int),
                    ..old(self)@
                }),
            decreases listing@.len() - i,
        {
            if !same_text(listing[i].as_str(), CURRENT_LINK) {
                self.record_installation(candidate, listing[i].as_str());
            }
            i = i + 1;
        }
    }

    /// Records that an installation is gone.
    pub fn forget_installation(&mut self, candidate: &str, version: &str)
        requires
            old(self).wf(),
        ensures
            final(self).wf(),
            final(self)@ == (StoreView {
                installed: old(self)@.installed.remove((candidate@, version@)),
                ..old(self)@
            }),
    {
        self.installs.remove(candidate, version);
    }

    /// Records which version a marker names.
    pub fn record_marker(&mut self, scope: Scope, candidate: &str, version: &str)
        requires
            old(self).wf(),
        ensures
            final(self).wf(),
            final(self)@ == old(self)@.with_markers(
                scope,
                old(self)@.markers(scope).insert(candidate@, version@),
            ),
    {
        match scope {
            Scope::Global => self.global.insert(
                String::from_str(candidate),
                String::from_str(version),
            ),
            Scope::Local => self.local.insert(
                String::from_str(candidate),
                String::from_str(version),
            ),
        }
    }

    /// Records that a marker is gone.
    pub fn forget_marker(&mut self, scope: Scope, candidate: &str)
        requires
            old(self).wf(),
        ensures
            final(self).wf(),
            final(self)@ == old(self)@.with_markers(
                scope,
                old(self)@.markers(scope).remove(candidate@),
            ),
    {
        match scope {
            Scope::Global => self.global.remove(candidate),
            Scope::Local => self.local.remove(candidate),
        }
    }

    /// The root of the store.
    pub fn root(&self) -> (r: &str)
        ensures
            r@ == self@.root,
    {
        self.root.as_str()
    }

    /// How markers are kept.
    pub fn kind(&self) -> (r: MarkerKind)
        ensures
            r == self@.kind,
    {
        self.kind
    }

    /// The version that the marker of a candidate names, whether or not its
    /// installation exists.
    pub fn marker(&self, candidate: &str, scope: Scope) -> (r: Option<&String>)
        requires
            self.wf(),
        ensures
            match r {
                Some(v) => self@.markers(scope).contains_key(candidate@) && v@ == self@.markers(
                    scope,
                )[candidate@],
                None => !self@.markers(scope).contains_key(candidate@),
            },
    {
        match scope {
            Scope::Global => self.global.get(candidate),
            Scope::Local => self.local.get(candidate),
        }
    }
}

/// Whether the installation of `version` of `candidate` exists.
pub fn is_installed(store: &Store, candidate: &str, version: &str) -> (r: bool)
    ensures
        r == store@.installed.contains((candidate@, version@)),
{
    store.installs.contains(candidate, version)
}

/// The installed versions of a candidate, each once, in no particular order.
/// The name of the marker is never among them, whatever the record holds. A
/// candidate of which nothing is installed has none.
pub fn get_installed_versions(store: &Store, candidate: &str) -> (r: Vec<String>)
    requires
        store.wf(),
    ensures
        forall|v: Seq<char>|
            (store@.installed.contains((candidate@, v)) && v != "current"@) <==> exists|j: int|
                0 <= j < r@.len() && (#[trigger] r@[j])@ == v,
        forall|i: int, j: int| 0 <= i < j < r@.len() ==> r@[i]@ != r@[j]@,
{
    let all = store.installs.seconds_of(candidate);
    let mut r: Vec<String> = Vec::new();
    let ghost mut from: Seq<int> = Seq::empty();
    let mut i: usize = 0;
    while i < all.len()
        invariant
            i <= all@.len(),
            from.len() == r@.len(),
            forall|j: int|
                0 <= j < r@.len() ==> 0 <= #[trigger] from[j] < i && r@[j]@ == all@[from[j]]@
                    && r@[j]@ != "current"@,
            forall|j: int, k: int| 0 <= j < k < r@.len() ==> from[j] < from[k],
            forall|n: int|
                0 <= n < i && (#[trigger] all@[n])@ != "current"@ ==> exists|j: int|
                    0 <= j < r@.len() && #[trigger] from[j] == n,
        decreases all@.len() - i,
    {
        if !same_text(all[i].as_str(), CURRENT_LINK) {
            let ghost old_from = from;
            let ghost old_len = r@.len();
            r.push(all[i].clone());
            proof {
                from = from.push(i as int);
                assert forall|n: int|
                    0 <= n < i + 1 && (#[trigger] all@[n])@ != "current"@ implies exists|j: int|
                    0 <= j < r@.len() && #[trigger] from[j] == n by {
                    if n < i {
                        let j = choose|j: int| 0 <= j < old_len && #[trigger] old_from[j] == n;
                        assert(from[j] == n);
                    } else {
                        assert(from[old_len as int] == n);
                    }
                }
            }
        }
        i = i + 1;
    }
    proof {
        assert forall|v: Seq<char>|
            (store@.installed.contains((candidate@, v)) && v != "current"@) implies exists|j: int|
            0 <= j < r@.len() && (#[trigger] r@[j])@ == v by {
            let n = choose|n: int| 0 <= n < all@.len() && (#[trigger] all@[n])@ == v;
            let j = choose|j: int| 0 <= j < r@.len() && #[trigger] from[j] == n;
            assert(r@[j]@ == v);
        }
        assert forall|v: Seq<char>|
            (exists|j: int| 0 <= j < r@.len() && (#[trigger] r@[j])@ == v) implies (
        store@.installed.contains((candidate@, v)) && v != "current"@) by {
            let j = choose|j: int| 0 <= j < r@.len() && (#[trigger] r@[j])@ == v;
            assert(all@[from[j]]@ == v);
        }
        assert forall|i: int, j: int| 0 <= i < j < r@.len() implies r@[i]@ != r@[j]@ by {
            assert(from[i] < from[j]);
            assert(all@[from[i]]@ != all@[from[j]]@);
        }
    }
    r
}

/// The current version of a candidate in a scope, if it has one.
pub fn get_current_version(store: &Store, candidate: &str, scope: Scope) -> (r: Option<String>)
    requires
        store.wf(),
    ensures
        match r {
            Some(v) => store@.current(candidate@, scope) == Some(v@),
            None => store@.current(candidate@, scope) is None,
        },
{
    match store.marker(candidate, scope) {
        Some(v) => {
            if store.installs.contains(candidate, v.as_str()) {
                Some(v.clone())
            } else {
                None
            }
        },
        None => None,
    }
}

/// Whether the project has an overlay.
pub fn is_local_env(store: &Store) -> (r: bool)
    ensures
        r == (store@.overlay is Some),
        r == (store@.active_scope() == Scope::Local),
{
    store.overlay.is_some()
}

/// The root of the project's overlay, where it has one.
pub fn local_sdkman_dir(store: &Store) -> (r: Option<String>)
    ensures
        match r {
            Some(dir) => store@.overlay == Some(dir@),
            None => store@.overlay is None,
        },
{
    match &store.overlay {
        Some(dir) => Some(dir.clone()),
        None => None,
    }
}

/// Makes `version` the current version of `candidate` in a scope.
///
/// The installation is always the one in the store itself: a marker of the
/// overlay points there too, and nothing of the payload is copied.
fn set_current(store: &mut Store, candidate: &str, version: &str, scope: Scope) -> (r: Result<
    Vec<FsStep>,
    SdkError,
>)
    requires
        old(store).wf(),
    ensures
        final(store).wf(),
        final(store)@ == old(store)@.set_current(candidate@, version@, scope),
        r is Ok <==> old(store)@.can_set(candidate@, version@, scope),
        match r {
            Ok(steps) => {
                &&& old(store)@.scope_root(scope) is Some
                &&& old(store)@.installed.contains((candidate@, version@))
                &&& final(store)@ == old(store)@.with_markers(
                    scope,
                    old(store)@.markers(scope).insert(candidate@, version@),
                )
                &&& views(steps@) == marker_steps(
                    old(store)@.kind,
                    candidate_home(old(store)@.scope_root(scope)->0, candidate@),
                    installation_path(old(store)@.root, candidate@, version@),
                    version@,
                    old(store)@.markers(scope).contains_key(candidate@),
                )
            },
            Err(e) => {
                &&& *final(store) == *old(store)
                &&& if old(store)@.scope_root(scope) is None {
                    e == SdkError::NoLocalEnvironment
                } else {
                    e == SdkError::NotInstalled && !old(store)@.installed.contains(
                        (candidate@, version@),
                    )
                }
            },
        },
{
    let base: String = match scope {
        Scope::Global => store.root.clone(),
        Scope::Local => match &store.overlay {
            Some(dir) => dir.clone(),
            None => {
                return Err(SdkError::NoLocalEnvironment);
            },
        },
    };
    if !store.installs.contains(candidate, version) {
        return Err(SdkError::NotInstalled);
    }
    let target = candidate_dir(store.root.as_str(), candidate, version);
    let all = join_path(base.as_str(), CANDIDATES_DIR);
    let home = join_path(all.as_str(), candidate);
    let link = join_path(home.as_str(), CURRENT_LINK);
    let replaces = store.marker(candidate, scope).is_some();
    let mut steps: Vec<FsStep> = Vec::new();
    steps.push(FsStep::CreateDirAll { path: home });
    if replaces {
        steps.push(FsStep::RemoveAll { path: link.clone() });
    }
    match store.kind {
        MarkerKind::Symlink => {
            steps.push(FsStep::Symlink { target, link });
        },
        MarkerKind::Directory => {
            let file = join_path(link.as_str(), VERSION_MARKER);
            steps.push(FsStep::CreateDirAll { path: link });
            steps.push(FsStep::WriteFile { path: file, content: String::from_str(version) });
        },
    }
    store.record_marker(scope, candidate, version);
    assert(views(steps@) =~= marker_steps(
        old(store)@.kind,
        candidate_home(old(store)@.scope_root(scope)->0, candidate@),
        installation_path(old(store)@.root, candidate@, version@),
        version@,
        old(store)@.markers(scope).contains_key(candidate@),
    ));
    Ok(steps)
}

/// Makes `version` the current version of `candidate` in the store.
///
/// Fails with `NotInstalled`, and changes nothing, where the installation
/// does not exist. Otherwise the marker names `version` afterwards, and the
/// steps returned put it on disk.
pub fn set_current_version(store: &mut Store, candidate: &str, version: &str) -> (r: Result<
    Vec<FsStep>,
    SdkError,
>)
    requires
        old(store).wf(),
    ensures
        final(store).wf(),
        final(store)@ == old(store)@.set_current(candidate@, version@, Scope::Global),
        r is Ok <==> old(store)@.installed.contains((candidate@, version@)),
        match r {
            Ok(steps) => {
                &&& final(store)@ == (StoreView {
                    global: old(store)@.global.insert(candidate@, version@),
                    ..old(store)@
                })
                &&& views(steps@) == marker_steps(
                    old(store)@.kind,
                    candidate_home(old(store)@.root, candidate@),
                    installation_path(old(store)@.root, candidate@, version@),
                    version@,
                    old(store)@.global.contains_key(candidate@),
                )
            },
            Err(e) => e == SdkError::NotInstalled && *final(store) == *old(store),
        },
{
    set_current(store, candidate, version, Scope::Global)
}

/// Makes `version` the current version of `candidate` in the project's
/// overlay.
///
/// Fails with `NoLocalEnvironment` where the project has no overlay, and with
/// `NotInstalled` where the store does not hold the installation; either way
/// nothing changes. Otherwise the overlay's marker names `version` afterwards.
/// It points to the installation in the store: nothing is installed, removed
/// or copied.
pub fn set_local_current_version(store: &mut Store, candidate: &str, version: &str) -> (r:
    Result<Vec<FsStep>, SdkError>)
    requires
        old(store).wf(),
    ensures
        final(store).wf(),
        final(store)@ == old(store)@.set_current(candidate@, version@, Scope::Local),
        r is Ok <==> old(store)@.overlay is Some && old(store)@.installed.contains(
            (candidate@, version@),
        ),
        match r {
            Ok(steps) => {
                &&& final(store)@ == (StoreView {
                    local: old(store)@.local.insert(candidate@, version@),
                    ..old(store)@
                })
                &&& views(steps@) == marker_steps(
                    old(store)@.kind,
                    candidate_home(old(store)@.overlay->0, candidate@),
                    installation_path(old(store)@.root, candidate@, version@),
                    version@,
                    old(store)@.local.contains_key(candidate@),
                )
            },
            Err(e) => {
                &&& *final(store) == *old(store)
                &&& e == if old(store)@.overlay is None {
                    SdkError::NoLocalEnvironment
                } else {
                    SdkError::NotInstalled
                }
            },
        },
{
    set_current(store, candidate, version, Scope::Local)
}

/// Takes the marker of a candidate away in a scope. Where none stands, or
/// the scope does not exist, nothing happens.
///
/// No installation is touched: the only step ever returned removes the marker
/// itself, below the root of the scope.
pub fn clear_current_version(store: &mut Store, candidate: &str, scope: Scope) -> (steps: Vec<
    FsStep,
>)
    requires
        old(store).wf(),
    ensures
        final(store).wf(),
        final(store)@ == old(store)@.clear_current(candidate@, scope),
        final(store)@.installed == old(store)@.installed,
        views(steps@) == match old(store)@.scope_root(scope) {
            Some(base) => unmark_steps(
                marker_path(base, candidate@),
                old(store)@.markers(scope).contains_key(candidate@),
            ),
            None => Seq::<StepView>::empty(),
        },
{
    let mut steps: Vec<FsStep> = Vec::new();
    let present = store.marker(candidate, scope).is_some();
    let base: Option<String> = match scope {
        Scope::Global => Some(store.root.clone()),
        Scope::Local => local_sdkman_dir(store),
    };
    match base {
        Some(dir) => {
            if present {
                steps.push(FsStep::RemoveAll { path: candidate_current(dir.as_str(), candidate) });
            }
        },
        None => {},
    }
    store.forget_marker(scope, candidate);
    assert(views(steps@) =~= match old(store)@.scope_root(scope) {
        Some(base) => unmark_steps(
            marker_path(base, candidate@),
            old(store)@.markers(scope).contains_key(candidate@),
        ),
        None => Seq::<StepView>::empty(),
    });
    steps
}

/// What follows when a step that makes a marker could not be taken: the
/// record has no marker for the candidate in the scope, and the one step
/// removes whatever stands at the marker's path, be it the old marker, a
/// half-made new one or nothing. The marker is then absent, never dangling.
pub fn abandon_marker(store: &mut Store, candidate: &str, scope: Scope) -> (steps: Vec<FsStep>)
    requires
        old(store).wf(),
    ensures
        final(store).wf(),
        final(store)@ == old(store)@.clear_current(candidate@, scope),
        final(store)@.current(candidate@, scope) is None,
        views(steps@) == (match old(store)@.scope_root(scope) {
            Some(base) => seq![StepView::RemoveAll { path: marker_path(base, candidate@) }],
            None => Seq::<StepView>::empty(),
        }),
{
    let mut steps: Vec<FsStep> = Vec::new();
    let base: Option<String> = match scope {
        Scope::Global => Some(store.root.clone()),
        Scope::Local => local_sdkman_dir(store),
    };
    match base {
        Some(dir) => {
            steps.push(FsStep::RemoveAll { path: candidate_current(dir.as_str(), candidate) });
        },
        None => {},
    }
    store.forget_marker(scope, candidate);
    assert(views(steps@) =~= (match old(store)@.scope_root(scope) {
        Some(base) => seq![StepView::RemoveAll { path: marker_path(base, candidate@) }],
        None => Seq::<StepView>::empty(),
    }));
    steps
}

/// An installation that does not exist is not reported as installed, and no
/// marker of any scope resolves to it.
pub proof fn lemma_missing_is_never_current(
    s: StoreView,
    candidate: Seq<char>,
    version: Seq<char>,
    scope: Scope,
)
    requires
        !s.installed.contains((candidate, version)),
    ensures
        s.current(candidate, scope) != Some(version),
{
}

/// After `version` was made current, it is the current version.
pub proof fn lemma_set_then_get(
    s: StoreView,
    candidate: Seq<char>,
    version: Seq<char>,
    scope: Scope,
)
    requires
        s.can_set(candidate, version, scope),
    ensures
        s.set_current(candidate, version, scope).current(candidate, scope) == Some(version),
{
}

/// What reading a marker back from disk yields: the last segment of a link's
/// target, or the trimmed text of a directory marker's version file.
pub open spec fn marker_reading(kind: MarkerKind, written: Seq<char>) -> Seq<char> {
    match kind {
        MarkerKind::Symlink => last_segment(written),
        MarkerKind::Directory => trim(written),
    }
}

/// Under both kinds of marker, the version that the steps write is the
/// version that is read back: from the link's target, which is the path of
/// the installation, and from the version file, which holds the version. This
/// holds of every version that is one path segment and neither starts nor
/// ends with white space.
pub proof fn lemma_marker_reads_back(root: Seq<char>, candidate: Seq<char>, version: Seq<char>)
    requires
        is_segment(version),
        !is_space(version[0]),
        !is_space(version.last()),
    ensures
        marker_reading(MarkerKind::Symlink, installation_path(root, candidate, version))
            == version,
        marker_reading(MarkerKind::Directory, version) == version,
{
    lemma_last_segment_of_join(candidate_home(root, candidate), version);
}

/// Making one version current and then another leaves one marker for the
/// candidate, which names the second: the record is the one that the second
/// change alone would have given.
pub proof fn lemma_set_twice(
    s: StoreView,
    candidate: Seq<char>,
    first: Seq<char>,
    second: Seq<char>,
    scope: Scope,
)
    requires
        s.can_set(candidate, first, scope),
        s.can_set(candidate, second, scope),
    ensures
        s.set_current(candidate, first, scope).set_current(candidate, second, scope)
            == s.set_current(candidate, second, scope),
        s.set_current(candidate, first, scope).set_current(candidate, second, scope).current(
            candidate,
            scope,
        ) == Some(second),
{
    let once = s.set_current(candidate, first, scope);
    assert(once.markers(scope).insert(candidate, second) =~= s.markers(scope).insert(
        candidate,
        second,
    ));
}

/// Making a version current whose installation does not exist changes
/// nothing: every marker resolves as before.
pub proof fn lemma_set_missing_changes_nothing(
    s: StoreView,
    candidate: Seq<char>,
    version: Seq<char>,
    scope: Scope,
)
    requires
        !s.installed.contains((candidate, version)),
    ensures
        s.set_current(candidate, version, scope) == s,
{
}

/// Whether `path` stands below the directory `base`.
pub open spec fn is_under(base: Seq<char>, path: Seq<char>) -> bool {
    path.len() > base.len() && path.take(base.len() as int + 1) == base.push('/')
}

/// Whether a directory can serve as an overlay of the store at `root`: it
/// is not the store and does not stand inside it, and the store is neither
/// the overlay's directory of candidates nor inside that.
pub open spec fn apart(root: Seq<char>, overlay: Seq<char>) -> bool {
    &&& overlay != root
    &&& !is_under(root, overlay)
    &&& root != candidates_path(overlay)
    &&& !is_under(candidates_path(overlay), root)
}

/// Whether `path` is the directory `base` or stands below it.
pub fn at_or_under(base: &str, path: &str) -> (r: bool)
    ensures
        r == (path@ == base@ || is_under(base@, path@)),
{
    let b = chars_of(base);
    let p = chars_of(path);
    assert(p@.subrange(0, p@.len() as int) =~= p@);
    if !span_starts_with(&p, 0, p.len(), &b) {
        proof {
            if p@ == b@ {
                assert(p@.take(b@.len() as int) =~= b@);
            }
            if is_under(b@, p@) {
                assert(p@.take(b@.len() as int) =~= p@.take(b@.len() as int + 1).take(
                    b@.len() as int,
                ));
                assert(b@.push('/').take(b@.len() as int) =~= b@);
            }
        }
        return false;
    }
    if p.len() == b.len() {
        assert(p@.take(b@.len() as int) =~= p@);
        return true;
    }
    let r = p[b.len()] == '/';
    proof {
        if r {
            assert(p@.take(b@.len() as int + 1) =~= b@.push('/'));
        } else if is_under(b@, p@) {
            assert(p@.take(b@.len() as int + 1)[b@.len() as int] == '/');
        }
    }
    r
}

/// Clearing a marker of the overlay changes neither the installations nor the
/// markers of the store, and the one path that its step removes stands below
/// the overlay, is not the store and does not stand below it. This holds of
/// every overlay that a record can have.
pub proof fn lemma_local_clear_spares_store(s: StoreView, candidate: Seq<char>)
    requires
        s.overlay is Some,
        apart(s.root, s.overlay->0),
    ensures
        s.clear_current(candidate, Scope::Local).installed == s.installed,
        s.clear_current(candidate, Scope::Local).global == s.global,
        is_under(s.overlay->0, marker_path(s.overlay->0, candidate)),
        !is_under(s.root, marker_path(s.overlay->0, candidate)),
        marker_path(s.overlay->0, candidate) != s.root,
{
    let overlay = s.overlay->0;
    let root = s.root;
    let all = candidates_path(overlay);
    let path = marker_path(overlay, candidate);
    let n = overlay.len() as int;
    let m = root.len() as int;
    let k = all.len() as int;
    reveal_strlit("candidates");
    assert(path.take(n + 1) =~= overlay.push('/'));
    assert(path.take(k + 1) =~= all.push('/'));
    if is_under(root, path) {
        assert(path.take(m + 1)[m] == '/');
        if m < n {
            assert(overlay.take(m + 1) =~= path.take(m + 1));
        } else if m == n {
            assert(root =~= root.push('/').take(m));
            assert(overlay =~= path.take(m + 1).take(m));
        } else if m < k {
            assert(path[m] == all[m]);
            assert(all[m] == "candidates"@[m - n - 1]);
        } else if m == k {
            assert(root =~= root.push('/').take(m));
            assert(all =~= path.take(m + 1).take(m));
        } else {
            assert(root.take(k + 1) =~= root.push('/').take(k + 1));
            assert(path.take(m + 1).take(k + 1) =~= path.take(k + 1));
        }
    }
    if path == root {
        assert(root.take(k + 1) =~= all.push('/'));
    }
}

} // verus!
