//! The command that empties the caches of the store.

use crate::commands::outcome::{Param, param_views, ParamKind, ParamView};
use crate::constants::{METADATA_DIR, TMP_DIR, VAR_DIR, VERSION_FILE};
use crate::engine::layout::{file_name, join, join_path, last_segment};
use crate::engine::steps::{FsStep, StepView, views};
use crate::utils::text::{decimal, decimal_string, same_text};
use vstd::prelude::*;
use vstd::string::StringExecFns;

verus! {

/// One of the caches of the store.
#[derive(Clone, Copy, Debug, PartialEq, Eq, Structural)]
pub enum FlushTarget {
    /// The directory of scratch files.
    Tmp,
    /// The directory of catalog data.
    Metadata,
    /// The file that holds the version of the tool.
    Version,
}

/// The caches that a word names.
pub open spec fn flush_targets(target: Option<Seq<char>>) -> Seq<FlushTarget> {
    match target {
        Some(t) => if t == "tmp"@ || t == "temp"@ {
            seq![FlushTarget::Tmp]
        } else if t == "metadata"@ {
            seq![FlushTarget::Metadata]
        } else if t == "version"@ {
            seq![FlushTarget::Version]
        } else {
            seq![FlushTarget::Tmp, FlushTarget::Metadata]
        },
        None => seq![FlushTarget::Tmp, FlushTarget::Metadata],
    }
}

/// Where a cache stands in the store at `root`.
pub open spec fn flush_path(root: Seq<char>, target: FlushTarget) -> Seq<char> {
    match target {
        FlushTarget::Tmp => join(root, "tmp"@),
        FlushTarget::Metadata => join(join(root, "var"@), "metadata"@),
        FlushTarget::Version => join(join(root, "var"@), "version"@),
    }
}

/// The texts of a list with `, ` between them.
pub open spec fn listed(items: Seq<String>) -> Seq<char>
    decreases items.len(),
{
    if items.len() == 0 {
        Seq::<char>::empty()
    } else if items.len() == 1 {
        items[0]@
    } else {
        listed(items.drop_last()) + ", "@ + items.last()@
    }
}

/// What the command reports.
pub open spec fn flush_message(flushed: Seq<String>) -> Seq<char> {
    if flushed.len() == 0 {
        "Nothing to flush"@
    } else {
        "Flushed: "@ + listed(flushed)
    }
}

/// How an emptied directory is named in the report: by its last segment and
/// the number of entries that it held.
pub open spec fn flush_label(path: Seq<char>, count: nat) -> Seq<char> {
    last_segment(path) + " ("@ + decimal(count) + " items)"@
}

/// The command that empties the caches of the store.
#[derive(Clone, Copy, Debug)]
pub struct Flush;

impl Flush {
    /// The name under which the command is called.
    pub fn name(&self) -> (r: &'static str)
        ensures
            r@ == "sdk flush"@,
    {
        "sdk flush"
    }

    /// One line on what the command does.
    pub fn description(&self) -> (r: &'static str)
        ensures
            r@ == "Clear caches (tmp/metadata/version)"@,
    {
        "Clear caches (tmp/metadata/version)"
    }

    /// The parameters of the command, in the order in which they are given.
    pub fn signature(&self) -> (r: Vec<Param>)
        ensures
            param_views(r@) == seq![
                ParamView {
                    kind: ParamKind::Optional,
                    name: "target"@,
                    description: "What to flush: tmp, metadata, version, or all"@,
                    short: None,
                },
            ],
    {
        let mut r: Vec<Param> = Vec::new();
        r.push(
            Param {
                kind: ParamKind::Optional,
                name: "target",
                description: "What to flush: tmp, metadata, version, or all",
                short: None,
            },
        );
        assert(param_views(r@) =~= seq![
            ParamView {
                kind: ParamKind::Optional,
                name: "target"@,
                description: "What to flush: tmp, metadata, version, or all"@,
                short: None,
            },
        ]);
        r
    }

    /// The caches that the word given to the command names: `tmp` or `temp`
    /// the scratch files, `metadata` the catalog data, `version` the version
    /// file; anything else, or nothing, the scratch files and the catalog
    /// data.
    pub fn run(&self, target: Option<&str>) -> (r: Vec<FlushTarget>)
        ensures
            r@ == flush_targets(
                match target {
                    Some(t) => Some(t@),
                    None => None,
                },
            ),
    {
        let mut r: Vec<FlushTarget> = Vec::new();
        match target {
            Some(t) => {
                if same_text(t, "tmp") || same_text(t, "temp") {
                    r.push(FlushTarget::Tmp);
                    assert(r@ =~= seq![FlushTarget::Tmp]);
                    return r;
                }
                if same_text(t, "metadata") {
                    r.push(FlushTarget::Metadata);
                    assert(r@ =~= seq![FlushTarget::Metadata]);
                    return r;
                }
                if same_text(t, "version") {
                    r.push(FlushTarget::Version);
                    assert(r@ =~= seq![FlushTarget::Version]);
                    return r;
                }
            },
            None => {},
        }
        r.push(FlushTarget::Tmp);
        r.push(FlushTarget::Metadata);
        assert(r@ =~= seq![FlushTarget::Tmp, FlushTarget::Metadata]);
        r
    }

    /// Where a cache stands in the store at `root`.
    pub fn path(&self, root: &str, target: FlushTarget) -> (r: String)
        ensures
            r@ == flush_path(root@, target),
    {
        match target {
            FlushTarget::Tmp => join_path(root, TMP_DIR),
            FlushTarget::Metadata => {
                let var = join_path(root, VAR_DIR);
                join_path(var.as_str(), METADATA_DIR)
            },
            FlushTarget::Version => {
                let var = join_path(root, VAR_DIR);
                join_path(var.as_str(), VERSION_FILE)
            },
        }
    }

    /// What the command reports: the caches that were emptied, or that
    /// there was nothing to empty.
    pub fn message(&self, flushed: &Vec<String>) -> (r: String)
        ensures
            r@ == flush_message(flushed@),
    {
        if flushed.len() == 0 {
            return String::from_str("Nothing to flush");
        }
        let mut r = String::from_str("Flushed: ");
        r.append(flushed[0].as_str());
        let mut i: usize = 1;
        assert(flushed@.take(1).drop_last() =~= Seq::<String>::empty());
        while i < flushed.len()
            invariant
                1 <= i <= flushed@.len(),
                r@ == "Flushed: "@ + listed(flushed@.take(i as int)),
            decreases flushed@.len() - i,
        {
            r.append(", ");
            r.append(flushed[i].as_str());
            proof {
                assert(flushed@.take(i + 1).drop_last() =~= flushed@.take(i as int));
                assert(r@ =~= "Flushed: "@ + listed(flushed@.take(i + 1)));
            }
            i = i + 1;
        }
        assert(flushed@.take(flushed@.len() as int) =~= flushed@);
        r
    }
}

/// Plans the emptying of a cache directory that holds `count` entries.
///
/// A directory that does not exist is left alone. One that present is removed
/// with all it holds and made anew. It is named in the report only where it
/// held something.
pub fn flush_dir(path: &str, present: bool, count: usize) -> (r: (Vec<FsStep>, Option<String>))
    ensures
        views(r.0@) == (if present {
            seq![StepView::RemoveAll { path: path@ }, StepView::CreateDirAll { path: path@ }]
        } else {
            Seq::<StepView>::empty()
        }),
        match r.1 {
            Some(label) => present && count > 0 && label@ == flush_label(path@, count as nat),
            None => !present || count == 0,
        },
{
    let mut steps: Vec<FsStep> = Vec::new();
    if !present {
        assert(views(steps@) =~= Seq::<StepView>::empty());
        return (steps, None);
    }
    steps.push(FsStep::RemoveAll { path: String::from_str(path) });
    steps.push(FsStep::CreateDirAll { path: String::from_str(path) });
    assert(views(steps@) =~= seq![
        StepView::RemoveAll { path: path@ },
        StepView::CreateDirAll { path: path@ },
    ]);
    if count == 0 {
        return (steps, None);
    }
    let mut label = file_name(path);
    label.append(" (");
    label.append(decimal_string(count).as_str());
    label.append(" items)");
    (steps, Some(label))
}

/// Plans the removal of the version file. A file that does not exist is left
/// alone and not named in the report.
pub fn flush_file(path: &str, present: bool) -> (r: (Vec<FsStep>, Option<String>))
    ensures
        views(r.0@) == (if present {
            seq![StepView::RemoveAll { path: path@ }]
        } else {
            Seq::<StepView>::empty()
        }),
        match r.1 {
            Some(label) => present && label@ == "version file"@,
            None => !present,
        },
{
    let mut steps: Vec<FsStep> = Vec::new();
    if !present {
        assert(views(steps@) =~= Seq::<StepView>::empty());
        return (steps, None);
    }
    steps.push(FsStep::RemoveAll { path: String::from_str(path) });
    assert(views(steps@) =~= seq![StepView::RemoveAll { path: path@ }]);
    (steps, Some(String::from_str("version file")))
}

} // verus!
