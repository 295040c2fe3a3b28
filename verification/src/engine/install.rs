//! The install pipeline: acquire, extract, place, clean up.
//!
//! Every run works in a scratch directory of its own, named by the candidate
//! and the version. The archive is unpacked there and never into the
//! installation's place; the payload reaches that place in one move, or, where
//! the move is refused, by a copy. The scratch directory is removed at the
//! end, whatever happened; the installation, once placed, is not touched again.

use crate::engine::api::{download_url, get_download_url};
use crate::engine::env::is_under;
use crate::engine::layout::{
    candidate_dir, installation_path, join, join_path, parent_of, parent_path,
};
use crate::engine::steps::{failure_kind, failure_of, FsStep, StepView, views};
use crate::error::SdkError;
use crate::utils::archive::ArchiveFormat;
use crate::utils::text::chars_of;
use vstd::prelude::*;
use vstd::string::StringExecFns;

verus! {

/// How one character of a name is written in a key text: a hyphen as `h_`,
/// a slash as `s_`, an underscore as `__`, and every other character as
/// itself.
pub open spec fn escaped_char(c: char) -> Seq<char> {
    if c == '-' {
        seq!['h', '_']
    } else if c == '/' {
        seq!['s', '_']
    } else if c == '_' {
        seq!['_', '_']
    } else {
        seq![c]
    }
}

/// A name as it is written in a key text: character by character, so that
/// the text holds neither a hyphen nor a slash and the name can be read back
/// from it.
pub open spec fn escaped(name: Seq<char>) -> Seq<char>
    decreases name.len(),
{
    if name.len() == 0 {
        Seq::<char>::empty()
    } else {
        escaped(name.drop_last()) + escaped_char(name.last())
    }
}

/// A candidate and a version as one text: the two as they are written in a
/// key text, with a hyphen between. Different pairs give different texts, and
/// no text holds a slash.
pub open spec fn key_text(candidate: Seq<char>, version: Seq<char>) -> Seq<char> {
    escaped(candidate).push('-') + escaped(version)
}

/// The name of the scratch directory of a download.
pub open spec fn remote_scratch_name(candidate: Seq<char>, version: Seq<char>) -> Seq<char> {
    "sdkman-install-"@ + key_text(candidate, version)
}

/// The name of the scratch directory of an installation from a local archive.
pub open spec fn local_scratch_name(candidate: Seq<char>, version: Seq<char>) -> Seq<char> {
    "sdkman-local-"@ + key_text(candidate, version)
}

/// The ending of an archive's name.
pub open spec fn archive_suffix(format: ArchiveFormat) -> Seq<char> {
    match format {
        ArchiveFormat::TarGz => ".tar.gz"@,
        ArchiveFormat::Zip => ".zip"@,
    }
}

/// The name under which a downloaded archive is kept.
pub open spec fn archive_name(
    candidate: Seq<char>,
    version: Seq<char>,
    format: ArchiveFormat,
) -> Seq<char> {
    key_text(candidate, version) + archive_suffix(format)
}

/// The first part of an installation: where it works and what it starts with.
#[derive(Debug, Clone)]
pub struct InstallPlan {
    /// The scratch directory of this run.
    pub scratch: String,
    /// The directory inside it into which the archive is unpacked.
    pub source: String,
    /// The place of the installation.
    pub destination: String,
    /// The steps that acquire the archive and unpack it.
    pub steps: Vec<FsStep>,
}

/// One entry of a directory.
#[derive(Debug, Clone)]
pub struct DirEntry {
    pub name: String,
    pub is_dir: bool,
}

/// Appends a name to a text as it is written in a key text.
fn push_escaped(r: &mut String, name: &str)
    ensures
        final(r)@ == old(r)@ + escaped(name@),
{
    let chars = chars_of(name);
    let mut i: usize = 0;
    assert(r@ =~= old(r)@ + escaped(chars@.take(0)));
    while i < chars.len()
        invariant
            i <= chars@.len(),
            r@ == old(r)@ + escaped(chars@.take(i as int)),
        decreases chars@.len() - i,
    {
        let c = chars[i];
        let ghost before = r@;
        if c == '-' {
            r.push('h');
            r.push('_');
        } else if c == '/' {
            r.push('s');
            r.push('_');
        } else if c == '_' {
            r.push('_');
            r.push('_');
        } else {
            r.push(c);
        }
        proof {
            assert(chars@.take(i + 1).drop_last() =~= chars@.take(i as int));
            assert(r@ =~= before + escaped_char(c));
            assert(r@ =~= old(r)@ + escaped(chars@.take(i + 1)));
        }
        i = i + 1;
    }
    assert(chars@.take(chars@.len() as int) =~= chars@);
}

fn key_string(prefix: &str, candidate: &str, version: &str) -> (r: String)
    ensures
        r@ == prefix@ + key_text(candidate@, version@),
{
    let mut r = String::from_str(prefix);
    push_escaped(&mut r, candidate);
    r.push('-');
    push_escaped(&mut r, version);
    assert(r@ =~= prefix@ + key_text(candidate@, version@));
    r
}

/// Plans the installation of a version from the remote catalog.
///
/// The archive is fetched into the scratch directory of this candidate and
/// version, below `temp`, and unpacked into `source` inside it.
pub fn install_candidate(
    root: &str,
    temp: &str,
    candidate: &str,
    version: &str,
    platform: &str,
    format: ArchiveFormat,
) -> (plan: InstallPlan)
    ensures
        plan.scratch@ == join(temp@, remote_scratch_name(candidate@, version@)),
        plan.source@ == join(plan.scratch@, "source"@),
        plan.destination@ == installation_path(root@, candidate@, version@),
        views(plan.steps@) == seq![
            StepView::CreateDirAll { path: plan.scratch@ },
            StepView::Fetch {
                url: download_url(candidate@, version@, platform@),
                to: join(plan.scratch@, archive_name(candidate@, version@, format)),
            },
            StepView::Extract {
                archive: join(plan.scratch@, archive_name(candidate@, version@, format)),
                into: plan.source@,
            },
        ],
{
    let name = key_string("sdkman-install-", candidate, version);
    let scratch = join_path(temp, name.as_str());
    let mut file = key_string("", candidate, version);
    match format {
        ArchiveFormat::TarGz => file.append(".tar.gz"),
        ArchiveFormat::Zip => file.append(".zip"),
    }
    proof {
        reveal_strlit("");
        assert(""@ + key_text(candidate@, version@) =~= key_text(candidate@, version@));
    }
    let archive = join_path(scratch.as_str(), file.as_str());
    let source = join_path(scratch.as_str(), "source");
    let destination = candidate_dir(root, candidate, version);
    let mut steps: Vec<FsStep> = Vec::new();
    steps.push(FsStep::CreateDirAll { path: scratch.clone() });
    steps.push(
        FsStep::Fetch { url: get_download_url(candidate, version, platform), to: archive.clone() },
    );
    steps.push(FsStep::Extract { archive, into: source.clone() });
    let plan = InstallPlan { scratch, source, destination, steps };
    assert(views(plan.steps@) =~= seq![
        StepView::CreateDirAll { path: plan.scratch@ },
        StepView::Fetch {
            url: download_url(candidate@, version@, platform@),
            to: join(plan.scratch@, archive_name(candidate@, version@, format)),
        },
        StepView::Extract {
            archive: join(plan.scratch@, archive_name(candidate@, version@, format)),
            into: plan.source@,
        },
    ]);
    plan
}

/// Plans the installation of a version from an archive on disk.
///
/// Fails with `IoError` where the archive does not exist. Otherwise the
/// archive is unpacked into `source` inside the scratch directory of this
/// candidate and version, below `temp`.
pub fn install_local(
    root: &str,
    temp: &str,
    candidate: &str,
    version: &str,
    archive: &str,
    archive_exists: bool,
) -> (r: Result<InstallPlan, SdkError>)
    ensures
        r is Ok <==> archive_exists,
        match r {
            Ok(plan) => {
                &&& plan.scratch@ == join(temp@, local_scratch_name(candidate@, version@))
                &&& plan.source@ == join(plan.scratch@, "source"@)
                &&& plan.destination@ == installation_path(root@, candidate@, version@)
                &&& views(plan.steps@) == seq![
                    StepView::CreateDirAll { path: plan.scratch@ },
                    StepView::Extract { archive: archive@, into: plan.source@ },
                ]
            },
            Err(e) => e == SdkError::IoError,
        },
{
    if !archive_exists {
        return Err(SdkError::IoError);
    }
    let name = key_string("sdkman-local-", candidate, version);
    let scratch = join_path(temp, name.as_str());
    let source = join_path(scratch.as_str(), "source");
    let destination = candidate_dir(root, candidate, version);
    let mut steps: Vec<FsStep> = Vec::new();
    steps.push(FsStep::CreateDirAll { path: scratch.clone() });
    steps.push(FsStep::Extract { archive: String::from_str(archive), into: source.clone() });
    let plan = InstallPlan { scratch, source, destination, steps };
    assert(views(plan.steps@) =~= seq![
        StepView::CreateDirAll { path: plan.scratch@ },
        StepView::Extract { archive: archive@, into: plan.source@ },
    ]);
    Ok(plan)
}

/// The directory that holds the payload: the one directory inside `source`
/// where `source` holds one directory and nothing else, else `source` itself.
pub open spec fn payload_root(source: Seq<char>, listing: Seq<DirEntry>) -> Seq<char> {
    if listing.len() == 1 && listing[0].is_dir {
        join(source, listing[0].name@)
    } else {
        source
    }
}

/// The steps that place the payload.
///
/// What stands at the destination is removed, the directory in which the
/// destination stands is made, and the payload is moved there by renaming.
pub open spec fn placing_steps(
    source: Seq<char>,
    destination: Seq<char>,
    listing: Seq<DirEntry>,
    destination_exists: bool,
) -> Seq<StepView> {
    let clear = if destination_exists {
        seq![StepView::RemoveAll { path: destination }]
    } else {
        Seq::<StepView>::empty()
    };
    let prepare = match parent_of(destination) {
        Some(dir) => seq![StepView::CreateDirAll { path: dir }],
        None => Seq::<StepView>::empty(),
    };
    clear + prepare + seq![
        StepView::Rename { from: payload_root(source, listing), to: destination },
    ]
}

/// Plans the placing of an unpacked payload at its destination.
///
/// `listing` is what the directory `source` holds, and `destination_exists`
/// whether anything stands at the destination.
pub fn move_and_normalize(
    source: &str,
    destination: &str,
    listing: &Vec<DirEntry>,
    destination_exists: bool,
) -> (steps: Vec<FsStep>)
    ensures
        views(steps@) == placing_steps(source@, destination@, listing@, destination_exists),
{
    let from = if listing.len() == 1 && listing[0].is_dir {
        join_path(source, listing[0].name.as_str())
    } else {
        String::from_str(source)
    };
    let mut steps: Vec<FsStep> = Vec::new();
    if destination_exists {
        steps.push(FsStep::RemoveAll { path: String::from_str(destination) });
    }
    match parent_path(destination) {
        Some(dir) => {
            steps.push(FsStep::CreateDirAll { path: dir });
        },
        None => {},
    }
    steps.push(FsStep::Rename { from, to: String::from_str(destination) });
    assert(views(steps@) =~= placing_steps(
        source@,
        destination@,
        listing@,
        destination_exists,
    ));
    steps
}

/// The steps to take where the renaming was refused, as it is across
/// devices: the payload is copied to the destination and then removed from
/// its old place. Unlike the renaming this is not done in one move: a copy
/// that is interrupted leaves a part of the payload at the destination.
pub fn copy_fallback(from: &str, to: &str) -> (steps: Vec<FsStep>)
    ensures
        views(steps@) == seq![
            StepView::CopyTree { from: from@, to: to@ },
            StepView::RemoveAll { path: from@ },
        ],
{
    let mut steps: Vec<FsStep> = Vec::new();
    steps.push(FsStep::CopyTree { from: String::from_str(from), to: String::from_str(to) });
    steps.push(FsStep::RemoveAll { path: String::from_str(from) });
    assert(views(steps@) =~= seq![
        StepView::CopyTree { from: from@, to: to@ },
        StepView::RemoveAll { path: from@ },
    ]);
    steps
}

/// The step that ends a run, whether it succeeded or failed: the scratch
/// directory is removed. The destination is not named.
pub fn cleanup(plan: &InstallPlan) -> (steps: Vec<FsStep>)
    ensures
        views(steps@) == seq![StepView::RemoveAll { path: plan.scratch@ }],
{
    let mut steps: Vec<FsStep> = Vec::new();
    steps.push(FsStep::RemoveAll { path: plan.scratch.clone() });
    assert(views(steps@) =~= seq![StepView::RemoveAll { path: plan.scratch@ }]);
    steps
}

/// Where a run of the pipeline stands.
#[derive(Clone, Copy, Debug, PartialEq, Eq, Structural)]
pub enum Stage {
    /// The archive is being acquired and unpacked in the scratch directory.
    Unpacking,
    /// The payload is being moved to the destination.
    Placing,
    /// The move was refused, and the payload is being copied instead.
    Copying,
    /// The scratch directory is being removed.
    Cleaning,
    /// Nothing is left to do.
    Finished,
}

/// What a run of the pipeline does next.
#[derive(Debug, Clone)]
pub struct Turn {
    /// The stage that the run enters.
    pub stage: Stage,
    /// The failure that the run ends with, where one has happened.
    pub failure: Option<SdkError>,
    /// The steps of the stage.
    pub steps: Vec<FsStep>,
}

/// The stage that follows `stage`, given the step of it that failed, if one
/// did.
///
/// A failure while unpacking or placing ends the work, but not the run: the
/// scratch directory is still removed. The one failure that does not end the
/// work is that of the renaming, which is made up for by a copy.
pub open spec fn next_stage(stage: Stage, failed: Option<StepView>) -> Stage {
    match stage {
        Stage::Unpacking => if failed is None {
            Stage::Placing
        } else {
            Stage::Cleaning
        },
        Stage::Placing => match failed {
            Some(StepView::Rename { from, to }) => Stage::Copying,
            _ => Stage::Cleaning,
        },
        Stage::Copying => Stage::Cleaning,
        Stage::Cleaning => Stage::Finished,
        Stage::Finished => Stage::Finished,
    }
}

/// The failure that the run carries on from `stage`. A failure of the
/// cleaning is passed over: it changes nothing of what the run ends with.
pub open spec fn next_failure(
    stage: Stage,
    carried: Option<SdkError>,
    failed: Option<StepView>,
) -> Option<SdkError> {
    match stage {
        Stage::Unpacking => match failed {
            Some(step) => Some(failure_kind(step)),
            None => None,
        },
        Stage::Placing => match failed {
            Some(StepView::Rename { from, to }) => None,
            Some(_) => Some(SdkError::IoError),
            None => None,
        },
        Stage::Copying => if failed is Some {
            Some(SdkError::IoError)
        } else {
            None
        },
        Stage::Cleaning => carried,
        Stage::Finished => carried,
    }
}

/// The steps of the stage that follows `stage`.
pub open spec fn next_steps(
    plan: InstallPlan,
    stage: Stage,
    failed: Option<StepView>,
    listing: Seq<DirEntry>,
    destination_exists: bool,
) -> Seq<StepView> {
    match next_stage(stage, failed) {
        Stage::Unpacking => Seq::<StepView>::empty(),
        Stage::Placing => placing_steps(
            plan.source@,
            plan.destination@,
            listing,
            destination_exists,
        ),
        Stage::Copying => seq![
            StepView::CopyTree { from: failed->0->Rename_from, to: failed->0->Rename_to },
            StepView::RemoveAll { path: failed->0->Rename_from },
        ],
        Stage::Cleaning => seq![StepView::RemoveAll { path: plan.scratch@ }],
        Stage::Finished => Seq::<StepView>::empty(),
    }
}

/// Decides what a run of the pipeline does next.
///
/// The run starts in the stage `Unpacking` with the steps of the plan. When
/// the steps of a stage have been taken, or one of them could not be taken,
/// this function names the stage that follows and its steps. `carried` is the
/// failure of the turn before; `listing` is what the directory `source` holds
/// once the archive is unpacked, and `destination_exists` whether anything
/// stands at the destination then.
pub fn advance(
    plan: &InstallPlan,
    stage: Stage,
    carried: Option<SdkError>,
    failed: Option<&FsStep>,
    listing: &Vec<DirEntry>,
    destination_exists: bool,
) -> (turn: Turn)
    ensures
        turn.stage == next_stage(
            stage,
            match failed {
                Some(step) => Some(step@),
                None => None,
            },
        ),
        turn.failure == next_failure(
            stage,
            carried,
            match failed {
                Some(step) => Some(step@),
                None => None,
            },
        ),
        views(turn.steps@) == next_steps(
            *plan,
            stage,
            match failed {
                Some(step) => Some(step@),
                None => None,
            },
            listing@,
            destination_exists,
        ),
{
    let none: Vec<FsStep> = Vec::new();
    assert(views(none@) =~= Seq::<StepView>::empty());
    match stage {
        Stage::Unpacking => match failed {
            Some(step) => Turn {
                stage: Stage::Cleaning,
                failure: Some(failure_of(step)),
                steps: cleanup(plan),
            },
            None => Turn {
                stage: Stage::Placing,
                failure: None,
                steps: move_and_normalize(
                    plan.source.as_str(),
                    plan.destination.as_str(),
                    listing,
                    destination_exists,
                ),
            },
        },
        Stage::Placing => match failed {
            Some(FsStep::Rename { from, to }) => Turn {
                stage: Stage::Copying,
                failure: None,
                steps: copy_fallback(from.as_str(), to.as_str()),
            },
            Some(_) => Turn {
                stage: Stage::Cleaning,
                failure: Some(SdkError::IoError),
                steps: cleanup(plan),
            },
            None => Turn { stage: Stage::Cleaning, failure: None, steps: cleanup(plan) },
        },
        Stage::Copying => Turn {
            stage: Stage::Cleaning,
            failure: if failed.is_some() {
                Some(SdkError::IoError)
            } else {
                None
            },
            steps: cleanup(plan),
        },
        Stage::Cleaning => Turn { stage: Stage::Finished, failure: carried, steps: none },
        Stage::Finished => Turn { stage: Stage::Finished, failure: carried, steps: none },
    }
}

/// No run ends without the cleaning: the stage before `Finished` is
/// `Cleaning`, whatever failed, and the one step of the cleaning removes the
/// scratch directory.
pub proof fn lemma_cleaning_comes_last(
    plan: InstallPlan,
    stage: Stage,
    failed: Option<StepView>,
    listing: Seq<DirEntry>,
    destination_exists: bool,
)
    ensures
        stage != Stage::Finished && next_stage(stage, failed) == Stage::Finished ==> stage
            == Stage::Cleaning,
        next_stage(stage, failed) == Stage::Cleaning ==> next_steps(
            plan,
            stage,
            failed,
            listing,
            destination_exists,
        ) == seq![StepView::RemoveAll { path: plan.scratch@ }],
        stage != Stage::Cleaning && stage != Stage::Finished ==> next_stage(stage, failed)
            != Stage::Finished,
{
}

/// While a run acquires and unpacks, it changes nothing outside its own
/// scratch directory: every path that a step of the plan writes at is the
/// scratch directory or stands below it.
pub proof fn lemma_unpacking_stays_in_scratch(
    scratch: Seq<char>,
    url: Seq<char>,
    file: Seq<char>,
    step: StepView,
    path: Seq<char>,
)
    requires
        step == (StepView::CreateDirAll { path: scratch }) || step == (StepView::Fetch {
            url: url,
            to: join(scratch, file),
        }) || step == (StepView::Extract {
            archive: join(scratch, file),
            into: join(scratch, "source"@),
        }),
        step.writes().contains(path),
    ensures
        path == scratch || is_under(scratch, path),
{
    assert(join(scratch, file).take(scratch.len() as int + 1) =~= scratch.push('/'));
    assert(join(scratch, "source"@).take(scratch.len() as int + 1) =~= scratch.push('/'));
}

/// A name as it is written in a key text holds neither a hyphen nor a slash.
pub proof fn lemma_escaped_clean(name: Seq<char>)
    ensures
        forall|i: int|
            0 <= i < escaped(name).len() ==> escaped(name)[i] != '-' && escaped(name)[i] != '/',
    decreases name.len(),
{
    if name.len() > 0 {
        lemma_escaped_clean(name.drop_last());
        let before = escaped(name.drop_last());
        let tail = escaped_char(name.last());
        assert forall|i: int| 0 <= i < escaped(name).len() implies escaped(name)[i] != '-'
            && escaped(name)[i] != '/' by {
            if i < before.len() {
                assert(escaped(name)[i] == before[i]);
            } else {
                assert(escaped(name)[i] == tail[i - before.len()]);
            }
        }
    }
}

/// A name can be read back from how it is written in a key text.
pub proof fn lemma_escaped_injective(a: Seq<char>, b: Seq<char>)
    requires
        escaped(a) == escaped(b),
    ensures
        a == b,
    decreases a.len(),
{
    if a.len() == 0 || b.len() == 0 {
        if a.len() > 0 {
            assert(escaped_char(a.last()).len() >= 1);
        }
        if b.len() > 0 {
            assert(escaped_char(b.last()).len() >= 1);
        }
        assert(a =~= b);
    } else {
        let x = a.last();
        let y = b.last();
        let ea = escaped(a);
        let pa = escaped(a.drop_last());
        let pb = escaped(b.drop_last());
        let special_x = x == '-' || x == '/' || x == '_';
        let special_y = y == '-' || y == '/' || y == '_';
        assert(ea == pa + escaped_char(x));
        assert(ea == pb + escaped_char(y));
        assert(ea.last() == escaped_char(x).last());
        assert(ea.last() == escaped_char(y).last());
        assert(special_x == special_y);
        if special_x {
            assert(ea[ea.len() - 2] == escaped_char(x)[0]);
            assert(ea[ea.len() - 2] == escaped_char(y)[0]);
            assert(x == y);
            assert(pa =~= ea.take(ea.len() - 2));
            assert(pb =~= ea.take(ea.len() - 2));
        } else {
            assert(x == y);
            assert(pa =~= ea.take(ea.len() - 1));
            assert(pb =~= ea.take(ea.len() - 1));
        }
        lemma_escaped_injective(a.drop_last(), b.drop_last());
        assert(a =~= a.drop_last().push(x));
        assert(b =~= b.drop_last().push(y));
    }
}

/// A candidate and a version can be read back from their key text, and the
/// key text holds no slash.
pub proof fn lemma_key_text_injective(c1: Seq<char>, v1: Seq<char>, c2: Seq<char>, v2: Seq<char>)
    ensures
        key_text(c1, v1) == key_text(c2, v2) ==> c1 == c2 && v1 == v2,
        forall|i: int| 0 <= i < key_text(c1, v1).len() ==> key_text(c1, v1)[i] != '/',
{
    lemma_escaped_clean(c1);
    lemma_escaped_clean(v1);
    lemma_escaped_clean(c2);
    let a = key_text(c1, v1);
    let b = key_text(c2, v2);
    let n = escaped(c1).len() as int;
    let m = escaped(c2).len() as int;
    assert forall|i: int| 0 <= i < a.len() implies a[i] != '/' by {
        if i < n {
            assert(a[i] == escaped(c1)[i]);
        } else if i > n {
            assert(a[i] == escaped(v1)[i - n - 1]);
        }
    }
    if a == b {
        assert(a[n] == '-');
        assert(b[m] == '-');
        if n < m {
            assert(b[n] == escaped(c2)[n]);
        }
        if m < n {
            assert(a[m] == escaped(c1)[m]);
        }
        assert(escaped(c1) =~= a.take(n));
        assert(escaped(c2) =~= b.take(m));
        assert(escaped(v1) =~= a.skip(n + 1));
        assert(escaped(v2) =~= b.skip(m + 1));
        lemma_escaped_injective(c1, c2);
        lemma_escaped_injective(v1, v2);
    }
}

/// The name of the scratch directory of a run: that of a download, or that
/// of an installation from a local archive.
pub open spec fn scratch_name(local: bool, candidate: Seq<char>, version: Seq<char>) -> Seq<char> {
    if local {
        local_scratch_name(candidate, version)
    } else {
        remote_scratch_name(candidate, version)
    }
}

/// Two runs that differ in the candidate, in the version or in where the
/// archive comes from work in different scratch directories, of which neither
/// stands inside the other. This holds of every candidate and every version.
pub proof fn lemma_scratch_dirs_apart(
    temp: Seq<char>,
    l1: bool,
    c1: Seq<char>,
    v1: Seq<char>,
    l2: bool,
    c2: Seq<char>,
    v2: Seq<char>,
)
    requires
        l1 != l2 || c1 != c2 || v1 != v2,
    ensures
        join(temp, scratch_name(l1, c1, v1)) != join(temp, scratch_name(l2, c2, v2)),
        !is_under(join(temp, scratch_name(l1, c1, v1)), join(temp, scratch_name(l2, c2, v2))),
        !is_under(join(temp, scratch_name(l2, c2, v2)), join(temp, scratch_name(l1, c1, v1))),
{
    let remote = "sdkman-install-"@;
    let local = "sdkman-local-"@;
    reveal_strlit("sdkman-install-");
    reveal_strlit("sdkman-local-");
    let head1 = if l1 {
        local
    } else {
        remote
    };
    let head2 = if l2 {
        local
    } else {
        remote
    };
    let k1 = key_text(c1, v1);
    let k2 = key_text(c2, v2);
    let n1 = scratch_name(l1, c1, v1);
    let n2 = scratch_name(l2, c2, v2);
    let s1 = join(temp, n1);
    let s2 = join(temp, n2);
    let t = temp.len() as int;
    lemma_key_text_injective(c1, v1, c2, v2);
    lemma_key_text_injective(c2, v2, c1, v1);
    assert(n1 == head1 + k1);
    assert(n2 == head2 + k2);
    assert forall|i: int| 0 <= i < n1.len() implies n1[i] != '/' by {
        if i >= head1.len() {
            assert(n1[i] == k1[i - head1.len()]);
        }
    }
    assert forall|i: int| 0 <= i < n2.len() implies n2[i] != '/' by {
        if i >= head2.len() {
            assert(n2[i] == k2[i - head2.len()]);
        }
    }
    if n1 == n2 {
        if l1 != l2 {
            assert(n1[7] == head1[7]);
            assert(n2[7] == head2[7]);
        } else {
            assert(k1 =~= n1.skip(head1.len() as int));
            assert(k2 =~= n2.skip(head2.len() as int));
        }
    }
    if s1 == s2 {
        assert(n1 =~= s1.skip(t + 1));
        assert(n2 =~= s2.skip(t + 1));
    }
    if is_under(s1, s2) {
        assert(s2.take(s1.len() as int + 1)[s1.len() as int] == '/');
        assert(s2[s1.len() as int] == n2[s1.len() - t - 1]);
    }
    if is_under(s2, s1) {
        assert(s1.take(s2.len() as int + 1)[s2.len() as int] == '/');
        assert(s1[s2.len() as int] == n1[s2.len() - t - 1]);
    }
}

} // verus!
