//! Where things stand in a store: the paths of the on-disk layout.
//!
//! A path is a text in which `/` separates the segments. Below a store root
//! the layout is `candidates/<candidate>/<version>` for an installation and
//! `candidates/<candidate>/current` for the marker of the current version.

use crate::constants::{CANDIDATES_DIR, CURRENT_LINK};
use crate::utils::text::{
    after_last, chars_of, find_last, lemma_after_last, string_of, trim, trim_span,
};
use vstd::prelude::*;
use vstd::string::StringExecFns;

verus! {

/// `base` with one more segment.
pub open spec fn join(base: Seq<char>, name: Seq<char>) -> Seq<char> {
    base.push('/') + name
}

/// The directory that holds every candidate of the store at `root`.
pub open spec fn candidates_path(root: Seq<char>) -> Seq<char> {
    join(root, "candidates"@)
}

/// The directory that holds the versions and the marker of one candidate.
pub open spec fn candidate_home(root: Seq<char>, candidate: Seq<char>) -> Seq<char> {
    join(candidates_path(root), candidate)
}

/// The directory of one installation.
pub open spec fn installation_path(
    root: Seq<char>,
    candidate: Seq<char>,
    version: Seq<char>,
) -> Seq<char> {
    join(candidate_home(root, candidate), version)
}

/// The path of the marker of a candidate's current version.
pub open spec fn marker_path(root: Seq<char>, candidate: Seq<char>) -> Seq<char> {
    join(candidate_home(root, candidate), "current"@)
}

/// What stands behind the last `/` of a path; the whole path where it holds
/// none.
pub open spec fn last_segment(path: Seq<char>) -> Seq<char> {
    after_last(path, '/')
}

/// Whether a text can serve as one segment of a path and be read back from
/// it: it is not empty and holds no `/`.
pub open spec fn is_segment(name: Seq<char>) -> bool {
    name.len() > 0 && forall|i: int| 0 <= i < name.len() ==> name[i] != '/'
}

/// A segment that was joined to a path is read back as its last segment.
pub proof fn lemma_last_segment_of_join(base: Seq<char>, name: Seq<char>)
    requires
        forall|i: int| 0 <= i < name.len() ==> name[i] != '/',
    ensures
        last_segment(join(base, name)) == name,
{
    let path = join(base, name);
    let start = base.len() as int + 1;
    lemma_after_last(path, '/', start);
    assert(path.skip(start) =~= name);
}

/// Appends one segment to a path.
pub fn join_path(base: &str, name: &str) -> (r: String)
    ensures
        r@ == join(base@, name@),
{
    let mut r = String::from_str(base);
    r.push('/');
    r.append(name);
    r
}

/// The directory that holds every candidate of the store at `root`.
pub fn candidates_dir(root: &str) -> (r: String)
    ensures
        r@ == candidates_path(root@),
{
    join_path(root, CANDIDATES_DIR)
}

/// The directory of the installation of `version` of `candidate`. That the
/// installation exists is not implied.
pub fn candidate_dir(root: &str, candidate: &str, version: &str) -> (r: String)
    ensures
        r@ == installation_path(root@, candidate@, version@),
{
    let all = candidates_dir(root);
    let home = join_path(all.as_str(), candidate);
    join_path(home.as_str(), version)
}

/// The path of the marker of `candidate`'s current version.
pub fn candidate_current(root: &str, candidate: &str) -> (r: String)
    ensures
        r@ == marker_path(root@, candidate@),
{
    let all = candidates_dir(root);
    let home = join_path(all.as_str(), candidate);
    join_path(home.as_str(), CURRENT_LINK)
}

/// The last segment of a path.
pub fn file_name(path: &str) -> (r: String)
    ensures
        r@ == last_segment(path@),
{
    let chars = chars_of(path);
    let start = find_last(&chars, 0, chars.len(), '/');
    assert(chars@.subrange(0, chars@.len() as int) =~= chars@);
    string_of(&chars, start, chars.len())
}

/// The version that a marker kept as a symbolic link names: the last segment
/// of the link's target, or nothing where that segment is empty.
pub fn version_of_link_target(target: &str) -> (r: Option<String>)
    ensures
        match r {
            Some(v) => v@ == last_segment(target@) && v@.len() > 0,
            None => last_segment(target@).len() == 0,
        },
{
    let chars = chars_of(target);
    let start = find_last(&chars, 0, chars.len(), '/');
    assert(chars@.subrange(0, chars@.len() as int) =~= chars@);
    if start < chars.len() {
        Some(string_of(&chars, start, chars.len()))
    } else {
        None
    }
}

/// The version that a marker kept as a directory names: the text of its
/// version file without the white space around it.
pub fn version_of_marker_text(text: &str) -> (r: String)
    ensures
        r@ == trim(text@),
{
    let chars = chars_of(text);
    let t = trim_span(&chars, 0, chars.len());
    assert(chars@.subrange(0, chars@.len() as int) =~= text@);
    string_of(&chars, t.lo, t.hi)
}

/// The directory in which a path stands: the path up to its last `/`, or
/// nothing where it holds none.
pub open spec fn parent_of(path: Seq<char>) -> Option<Seq<char>> {
    if last_segment(path).len() == path.len() {
        None
    } else {
        Some(path.take(path.len() - last_segment(path).len() - 1))
    }
}

/// The directory in which a path stands.
pub fn parent_path(path: &str) -> (r: Option<String>)
    ensures
        match r {
            Some(dir) => parent_of(path@) == Some(dir@),
            None => parent_of(path@) is None,
        },
{
    let chars = chars_of(path);
    let start = find_last(&chars, 0, chars.len(), '/');
    assert(chars@.subrange(0, chars@.len() as int) =~= chars@);
    if start > 0 {
        assert(chars@.subrange(0, start - 1) =~= chars@.take(start - 1));
        Some(string_of(&chars, 0, start - 1))
    } else {
        None
    }
}

} // verus!
