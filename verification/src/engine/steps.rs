//! The filesystem and network steps that the library asks its caller to take.
//!
//! The library decides; the caller acts. A step names paths as texts in which
//! `/` separates the segments.

use crate::error::SdkError;
use vstd::prelude::*;

verus! {

/// One step for the caller to carry out. Steps of a list are taken in order,
/// and the first that fails ends the run.
#[derive(Debug, Clone)]
pub enum FsStep {
    /// Create the directory and every missing parent of it.
    CreateDirAll { path: String },
    /// Remove whatever stands at the path: a link, a file, or a directory with
    /// all it holds. Nothing standing there is no failure.
    RemoveAll { path: String },
    /// Create a symbolic link at `link` that points to `target`.
    Symlink { target: String, link: String },
    /// Write the text to the file, replacing what it held.
    WriteFile { path: String, content: String },
    /// Download what the address serves into the file.
    Fetch { url: String, to: String },
    /// Unpack the archive into the directory.
    Extract { archive: String, into: String },
    /// Move the directory to its new place by renaming it, in one move.
    Rename { from: String, to: String },
    /// Copy the directory with all it holds to its new place, piece by piece.
    CopyTree { from: String, to: String },
}

/// What a step says, with its texts as sequences of characters.
pub enum StepView {
    CreateDirAll { path: Seq<char> },
    RemoveAll { path: Seq<char> },
    Symlink { target: Seq<char>, link: Seq<char> },
    WriteFile { path: Seq<char>, content: Seq<char> },
    Fetch { url: Seq<char>, to: Seq<char> },
    Extract { archive: Seq<char>, into: Seq<char> },
    Rename { from: Seq<char>, to: Seq<char> },
    CopyTree { from: Seq<char>, to: Seq<char> },
}

impl View for FsStep {
    type V = StepView;

    open spec fn view(&self) -> StepView {
        match *self {
            FsStep::CreateDirAll { path } => StepView::CreateDirAll { path: path@ },
            FsStep::RemoveAll { path } => StepView::RemoveAll { path: path@ },
            FsStep::Symlink { target, link } => StepView::Symlink { target: target@, link: link@ },
            FsStep::WriteFile { path, content } => StepView::WriteFile {
                path: path@,
                content: content@,
            },
            FsStep::Fetch { url, to } => StepView::Fetch { url: url@, to: to@ },
            FsStep::Extract { archive, into } => StepView::Extract {
                archive: archive@,
                into: into@,
            },
            FsStep::Rename { from, to } => StepView::Rename { from: from@, to: to@ },
            FsStep::CopyTree { from, to } => StepView::CopyTree { from: from@, to: to@ },
        }
    }
}

/// What a list of steps says.
pub open spec fn views(steps: Seq<FsStep>) -> Seq<StepView> {
    Seq::new(steps.len(), |i: int| steps[i]@)
}

impl StepView {
    /// The paths at which the step changes something.
    pub open spec fn writes(self) -> Set<Seq<char>> {
        match self {
            StepView::CreateDirAll { path } => set![path],
            StepView::RemoveAll { path } => set![path],
            StepView::Symlink { target, link } => set![link],
            StepView::WriteFile { path, content } => set![path],
            StepView::Fetch { url, to } => set![to],
            StepView::Extract { archive, into } => set![into],
            StepView::Rename { from, to } => set![from, to],
            StepView::CopyTree { from, to } => set![to],
        }
    }
}

/// The failure that a step stands for when it cannot be taken: a failed
/// download is a `FetchError`, a failed unpacking an `ExtractError`, and
/// every other failure an `IoError`.
pub open spec fn failure_kind(step: StepView) -> SdkError {
    match step {
        StepView::Fetch { url, to } => SdkError::FetchError,
        StepView::Extract { archive, into } => SdkError::ExtractError,
        _ => SdkError::IoError,
    }
}

/// The failure that a step stands for when it cannot be taken.
pub fn failure_of(step: &FsStep) -> (e: SdkError)
    ensures
        e == failure_kind(step@),
{
    match step {
        FsStep::Fetch { url: _, to: _ } => SdkError::FetchError,
        FsStep::Extract { archive: _, into: _ } => SdkError::ExtractError,
        _ => SdkError::IoError,
    }
}

/// Appends the steps of `more` to `steps`, in order.
pub fn append_steps(steps: &mut Vec<FsStep>, more: Vec<FsStep>)
    ensures
        views(final(steps)@) == views(old(steps)@) + views(more@),
{
    let mut more = more;
    let ghost all = more@;
    let ghost start = steps@;
    steps.append(&mut more);
    assert(steps@ == start + all);
    assert(views(steps@) =~= views(start) + views(all));
}

} // verus!
