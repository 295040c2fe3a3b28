//! Archives: which reader a name calls for, and where each entry lands.
//!
//! This module decides the format from the archive's name, has the reader
//! for that format list the archive's entries, and decides where each of them
//! is to be written. An archive whose entries all lie in one top-level
//! directory is unpacked without that directory. Writing the files is the
//! caller's part.

use crate::engine::layout::{file_name, join, join_path, last_segment, parent_of, parent_path};
use crate::error::SdkError;
use crate::utils::readers::{
    io_error_text, tar_gz_entries, tar_gz_listing, zip_entry, zip_entry_at, zip_entry_count,
    zip_error_text, zip_len,
};
use crate::utils::text::{
    after_last, chars_of, find_char, find_last, first_index, Span, span_equals, split, split_spans,
    string_of,
};
use vstd::prelude::*;
use vstd::string::StringExecFns;

verus! {

/// The archive formats that can be read.
#[derive(Clone, Copy, Debug, PartialEq, Eq, Structural)]
pub enum ArchiveFormat {
    /// A tar archive compressed with gzip.
    TarGz,
    /// A zip archive.
    Zip,
}

/// A path without the `/` at its end, however many there are.
pub open spec fn without_slashes(path: Seq<char>) -> Seq<char>
    decreases path.len(),
{
    if path.len() > 0 && path.last() == '/' {
        without_slashes(path.drop_last())
    } else {
        path
    }
}

/// The extension of a path: what follows the last `.` of its last segment,
/// where a `/` at the end of the path does not count. A last segment without
/// a `.`, or with its only `.` in front, has none.
pub open spec fn extension_of(path: Seq<char>) -> Option<Seq<char>> {
    let file = last_segment(without_slashes(path));
    let ext = after_last(file, '.');
    if ext.len() == file.len() || file.len() - ext.len() == 1 {
        None
    } else {
        Some(ext)
    }
}

/// The format that an archive's name calls for.
pub open spec fn format_of(path: Seq<char>) -> Option<ArchiveFormat> {
    if extension_of(path) == Some("gz"@) {
        Some(ArchiveFormat::TarGz)
    } else if extension_of(path) == Some("zip"@) {
        Some(ArchiveFormat::Zip)
    } else {
        None
    }
}

/// Decides by the extension of an archive's name which reader it needs: `gz`
/// a gzip-compressed tar reader, `zip` a zip reader. Any other name is
/// refused with `UnsupportedFormat`.
pub fn archive_format(path: &str) -> (r: Result<ArchiveFormat, SdkError>)
    ensures
        match r {
            Ok(format) => format_of(path@) == Some(format),
            Err(e) => format_of(path@) is None && e == SdkError::UnsupportedFormat,
        },
{
    let chars = chars_of(path);
    let mut end: usize = chars.len();
    assert(chars@.subrange(0, chars@.len() as int) =~= path@);
    while end > 0 && chars[end - 1] == '/'
        invariant
            end <= chars@.len(),
            without_slashes(chars@) == without_slashes(chars@.subrange(0, end as int)),
        decreases end,
    {
        assert(chars@.subrange(0, end as int).drop_last() =~= chars@.subrange(0, end - 1));
        end = end - 1;
    }
    let file = find_last(&chars, 0, end, '/');
    let ext = find_last(&chars, file, end, '.');
    if ext == file || ext - file == 1 {
        return Err(SdkError::UnsupportedFormat);
    }
    let gz = chars_of("gz");
    let zip = chars_of("zip");
    if span_equals(&chars, ext, end, &gz) {
        Ok(ArchiveFormat::TarGz)
    } else if span_equals(&chars, ext, end, &zip) {
        Ok(ArchiveFormat::Zip)
    } else {
        Err(SdkError::UnsupportedFormat)
    }
}

/// One entry of an archive: its path inside the archive, with `/` between
/// the segments, and whether it is a directory.
#[derive(Debug, Clone)]
pub struct ArchiveEntry {
    pub name: String,
    pub is_dir: bool,
}

/// What an entry says, with its name as a sequence of characters.
pub struct EntryView {
    pub name: Seq<char>,
    pub is_dir: bool,
}

impl View for ArchiveEntry {
    type V = EntryView;

    open spec fn view(&self) -> EntryView {
        EntryView { name: self.name@, is_dir: self.is_dir }
    }
}

/// What a list of entries says.
pub open spec fn entry_views(es: Seq<ArchiveEntry>) -> Seq<EntryView> {
    Seq::new(es.len(), |i: int| es[i]@)
}

/// One step of an extraction.
#[derive(Debug, Clone)]
pub enum ExtractOp {
    /// Create the directory and every missing parent of it.
    MakeDir { path: String },
    /// Write the contents of the entry with this index to the file.
    WriteFile { entry: usize, path: String },
}

/// What a step of an extraction says.
pub enum OpView {
    MakeDir { path: Seq<char> },
    WriteFile { entry: int, path: Seq<char> },
}

impl View for ExtractOp {
    type V = OpView;

    open spec fn view(&self) -> OpView {
        match *self {
            ExtractOp::MakeDir { path } => OpView::MakeDir { path: path@ },
            ExtractOp::WriteFile { entry, path } => OpView::WriteFile {
                entry: entry as int,
                path: path@,
            },
        }
    }
}

/// What a list of steps of an extraction says.
pub open spec fn op_views(ops: Seq<ExtractOp>) -> Seq<OpView> {
    Seq::new(ops.len(), |i: int| ops[i]@)
}

/// The path of an entry: its name without a `/` at the end.
pub open spec fn entry_path(name: Seq<char>) -> Seq<char> {
    if name.len() > 0 && name.last() == '/' {
        name.drop_last()
    } else {
        name
    }
}

/// The first segment of a path.
pub open spec fn first_segment(path: Seq<char>) -> Seq<char> {
    path.take(first_index(path, '/'))
}

/// Whether an entry is the top-level directory `top` or lies in it.
pub open spec fn lies_in(top: Seq<char>, e: EntryView) -> bool {
    let path = entry_path(e.name);
    first_segment(path) == top && (path.len() > top.len() || e.is_dir)
}

/// The one top-level directory in which every entry of the archive lies,
/// where there is one.
pub open spec fn common_top(entries: Seq<EntryView>) -> Option<Seq<char>> {
    if entries.len() == 0 {
        None
    } else {
        let top = first_segment(entry_path(entries[0].name));
        if top.len() > 0 && forall|i: int| 0 <= i < entries.len() ==> lies_in(top, entries[i]) {
            Some(top)
        } else {
            None
        }
    }
}

/// Where an entry lands, relative to the destination: its path, without the
/// common top-level directory where the archive has one.
pub open spec fn landing(top: Option<Seq<char>>, e: EntryView) -> Seq<char> {
    let path = entry_path(e.name);
    match top {
        Some(t) => if path.len() > t.len() {
            path.skip(t.len() as int + 1)
        } else {
            Seq::<char>::empty()
        },
        None => path,
    }
}

/// Whether a path climbs out of the directory that it is joined to: one of
/// its segments is `..`.
pub open spec fn climbs(path: Seq<char>) -> bool {
    split(path, '/').contains(".."@)
}

/// The steps that one entry takes: none where it lands on the destination
/// itself, and none where the path at which it lands climbs, so that nothing
/// is written outside the destination; a directory is created; a file is written, after the
/// directory in which it stands was created.
pub open spec fn entry_ops(
    destination: Seq<char>,
    top: Option<Seq<char>>,
    e: EntryView,
    index: int,
) -> Seq<OpView> {
    let rel = landing(top, e);
    let target = join(destination, rel);
    if rel.len() == 0 || climbs(rel) {
        Seq::<OpView>::empty()
    } else if e.is_dir {
        seq![OpView::MakeDir { path: target }]
    } else {
        match parent_of(target) {
            Some(dir) => seq![
                OpView::MakeDir { path: dir },
                OpView::WriteFile { entry: index, path: target },
            ],
            None => seq![OpView::WriteFile { entry: index, path: target }],
        }
    }
}

/// The steps of the first `n` entries, after the destination was created.
pub open spec fn ops_upto(
    destination: Seq<char>,
    top: Option<Seq<char>>,
    entries: Seq<EntryView>,
    n: int,
) -> Seq<OpView>
    decreases n,
{
    if n <= 0 {
        seq![OpView::MakeDir { path: destination }]
    } else {
        ops_upto(destination, top, entries, n - 1) + entry_ops(
            destination,
            top,
            entries[n - 1],
            n - 1,
        )
    }
}

/// The steps that unpack an archive into a destination.
pub open spec fn extract_ops(destination: Seq<char>, entries: Seq<EntryView>) -> Seq<OpView> {
    ops_upto(destination, common_top(entries), entries, entries.len() as int)
}

/// An archive with entries in two top-level directories is unpacked as it is:
/// every entry lands at its own path.
pub proof fn lemma_two_tops_unstripped(entries: Seq<EntryView>, i: int, j: int)
    requires
        0 <= i < entries.len(),
        0 <= j < entries.len(),
        first_segment(entry_path(entries[i].name)) != first_segment(
            entry_path(entries[j].name),
        ),
    ensures
        common_top(entries) is None,
        forall|k: int|
            0 <= k < entries.len() ==> landing(common_top(entries), #[trigger] entries[k])
                == entry_path(entries[k].name),
{
    let top = first_segment(entry_path(entries[0].name));
    if lies_in(top, entries[i]) && lies_in(top, entries[j]) {
        assert(false);
    }
}

/// The steps of an entry are among the steps of every longer list of
/// entries.
pub proof fn lemma_ops_upto_contains(
    destination: Seq<char>,
    top: Option<Seq<char>>,
    entries: Seq<EntryView>,
    i: int,
    n: int,
    op: OpView,
)
    requires
        0 <= i < n,
        entry_ops(destination, top, entries[i], i).contains(op),
    ensures
        ops_upto(destination, top, entries, n).contains(op),
    decreases n,
{
    let before = ops_upto(destination, top, entries, n - 1);
    let last = entry_ops(destination, top, entries[n - 1], n - 1);
    let all = ops_upto(destination, top, entries, n);
    assert(all == before + last);
    if n == i + 1 {
        let k = choose|k: int| 0 <= k < last.len() && last[k] == op;
        assert(all[before.len() + k] == op);
    } else {
        lemma_ops_upto_contains(destination, top, entries, i, n - 1, op);
        let k = choose|k: int| 0 <= k < before.len() && before[k] == op;
        assert(all[k] == op);
    }
}

/// Where every entry of an archive lies in one top-level directory, a file
/// at `rest` inside that directory is written to `rest` inside the
/// destination: the top-level directory is left out, whatever its name. This
/// holds of every `rest` without a segment `..`.
pub proof fn lemma_sole_top_is_stripped(
    destination: Seq<char>,
    entries: Seq<EntryView>,
    i: int,
    rest: Seq<char>,
)
    requires
        0 <= i < entries.len(),
        common_top(entries) is Some,
        !entries[i].is_dir,
        entry_path(entries[i].name) == join(common_top(entries)->0, rest),
        rest.len() > 0,
        !climbs(rest),
    ensures
        landing(common_top(entries), entries[i]) == rest,
        extract_ops(destination, entries).contains(
            OpView::WriteFile { entry: i, path: join(destination, rest) },
        ),
{
    let top = common_top(entries);
    let path = entry_path(entries[i].name);
    let op = OpView::WriteFile { entry: i, path: join(destination, rest) };
    assert(path.skip(top->0.len() as int + 1) =~= rest);
    let ops = entry_ops(destination, top, entries[i], i);
    match parent_of(join(destination, rest)) {
        Some(dir) => {
            assert(ops[1] == op);
        },
        None => {
            assert(ops[0] == op);
        },
    }
    lemma_ops_upto_contains(destination, top, entries, i, entries.len() as int, op);
}

/// The path of an entry as positions in its name: the end of the path, and
/// the end of its first segment.
fn measure(name: &Vec<char>) -> (r: (usize, usize))
    ensures
        r.1 <= r.0 <= name@.len(),
        name@.subrange(0, r.0 as int) == entry_path(name@),
        name@.subrange(0, r.1 as int) == first_segment(entry_path(name@)),
{
    let end: usize = if name.len() > 0 && name[name.len() - 1] == '/' {
        name.len() - 1
    } else {
        name.len()
    };
    let stop = find_char(name, 0, end, '/');
    proof {
        assert(name@.subrange(0, end as int) =~= entry_path(name@));
        assert(name@.subrange(0, stop as int) =~= entry_path(name@).take(stop as int));
    }
    (end, stop)
}

/// Whether one of the segments of `[lo, hi)` is `..`.
fn span_climbs(name: &Vec<char>, lo: usize, hi: usize) -> (r: bool)
    requires
        lo <= hi <= name.len(),
    ensures
        r == climbs(name@.subrange(lo as int, hi as int)),
{
    let up = chars_of("..");
    let parts = split_spans(name, lo, hi, '/');
    let ghost pieces = split(name@.subrange(lo as int, hi as int), '/');
    let mut i: usize = 0;
    while i < parts.len()
        invariant
            lo <= hi <= name@.len(),
            up@ == ".."@,
            pieces == split(name@.subrange(lo as int, hi as int), '/'),
            parts@.len() == pieces.len(),
            forall|j: int|
                0 <= j < parts@.len() ==> (#[trigger] parts@[j]).within(lo as int, hi as int)
                    && parts@[j].of(name@) == pieces[j],
            i <= parts@.len(),
            forall|j: int| 0 <= j < i ==> pieces[j] != ".."@,
        decreases parts@.len() - i,
    {
        let part: Span = parts[i];
        if span_equals(name, part.lo, part.hi, &up) {
            assert(pieces[i as int] == ".."@);
            return true;
        }
        i = i + 1;
    }
    false
}

/// Finds the top-level directory in which every entry lies.
fn find_common_top(entries: &Vec<ArchiveEntry>) -> (r: Option<Vec<char>>)
    ensures
        match r {
            Some(top) => common_top(entry_views(entries@)) == Some(top@),
            None => common_top(entry_views(entries@)) is None,
        },
{
    let ghost all = entry_views(entries@);
    if entries.len() == 0 {
        return None;
    }
    let first = chars_of(entries[0].name.as_str());
    let m = measure(&first);
    if m.1 == 0 {
        return None;
    }
    let mut top: Vec<char> = Vec::new();
    let mut k: usize = 0;
    while k < m.1
        invariant
            k <= m.1 <= first@.len(),
            top@ == first@.subrange(0, k as int),
        decreases m.1 - k,
    {
        top.push(first[k]);
        k = k + 1;
        assert(top@ =~= first@.subrange(0, k as int));
    }
    let mut i: usize = 0;
    while i < entries.len()
        invariant
            i <= entries@.len(),
            entries@.len() > 0,
            all == entry_views(entries@),
            top@ == first_segment(entry_path(all[0].name)),
            top@.len() > 0,
            forall|j: int| 0 <= j < i ==> lies_in(top@, all[j]),
        decreases entries@.len() - i,
    {
        let name = chars_of(entries[i].name.as_str());
        let e = measure(&name);
        let same = span_equals(&name, 0, e.1, &top);
        if !(same && (e.0 > e.1 || entries[i].is_dir)) {
            assert(!lies_in(top@, all[i as int]));
            return None;
        }
        i = i + 1;
    }
    Some(top)
}

/// Plans the unpacking of the entries of an archive into a destination.
///
/// The steps create the destination and then place every entry in turn,
/// without the top-level directory where all entries share one. An entry
/// that would land at a path with a segment `..` is passed over.
pub fn plan_extraction(destination: &str, entries: &Vec<ArchiveEntry>) -> (ops: Vec<ExtractOp>)
    ensures
        op_views(ops@) == extract_ops(destination@, entry_views(entries@)),
{
    let top = find_common_top(entries);
    let ghost all = entry_views(entries@);
    let ghost t: Option<Seq<char>> = common_top(all);
    let mut ops: Vec<ExtractOp> = Vec::new();
    ops.push(ExtractOp::MakeDir { path: String::from_str(destination) });
    assert(op_views(ops@) =~= ops_upto(destination@, t, all, 0));
    let mut i: usize = 0;
    while i < entries.len()
        invariant
            i <= entries@.len(),
            all == entry_views(entries@),
            t == common_top(all),
            match top {
                Some(v) => t == Some(v@),
                None => t is None,
            },
            op_views(ops@) == ops_upto(destination@, t, all, i as int),
        decreases entries@.len() - i,
    {
        let name = chars_of(entries[i].name.as_str());
        let m = measure(&name);
        let start: usize = match &top {
            Some(v) => if m.0 > v.len() {
                v.len() + 1
            } else {
                m.0
            },
            None => 0,
        };
        let ghost before = op_views(ops@);
        let ghost e = all[i as int];
        proof {
            match t {
                Some(v) => {
                    if m.0 > v.len() {
                        assert(name@.subrange(start as int, m.0 as int) =~= entry_path(
                            name@,
                        ).skip(v.len() as int + 1));
                    } else {
                        assert(name@.subrange(start as int, m.0 as int) =~= Seq::<char>::empty());
                    }
                },
                None => {},
            }
            assert(name@.subrange(start as int, m.0 as int) == landing(t, e));
        }
        if start < m.0 && !span_climbs(&name, start, m.0) {
            let rel = string_of(&name, start, m.0);
            let target = join_path(destination, rel.as_str());
            if entries[i].is_dir {
                ops.push(ExtractOp::MakeDir { path: target });
            } else {
                match parent_path(target.as_str()) {
                    Some(dir) => {
                        ops.push(ExtractOp::MakeDir { path: dir });
                    },
                    None => {},
                }
                ops.push(ExtractOp::WriteFile { entry: i, path: target });
            }
        }
        assert(op_views(ops@) =~= before + entry_ops(destination@, t, e, i as int));
        i = i + 1;
    }
    ops
}

/// Why an archive could not be unpacked: the kind of the failure, and what
/// the reader said of it.
#[derive(Debug, Clone)]
pub struct ExtractFailure {
    pub kind: SdkError,
    pub cause: String,
}

/// What the zip reader lists in the bytes: the entries in the archive's
/// order, or nothing where it fails on the archive or on one of its entries.
pub open spec fn zip_listing(bytes: Seq<u8>) -> Option<Seq<EntryView>> {
    match zip_entry_count(bytes) {
        Some(n) => if forall|i: nat| i < n ==> (#[trigger] zip_entry_at(bytes, i)) is Some {
            Some(
                Seq::new(
                    n,
                    |i: int|
                        EntryView {
                            name: (zip_entry_at(bytes, i as nat)->0).0,
                            is_dir: (zip_entry_at(bytes, i as nat)->0).1,
                        },
                ),
            )
        } else {
            None
        },
        None => None,
    }
}

/// What the gzip decoder and the tar reader list in the bytes.
pub open spec fn tar_listing(bytes: Seq<u8>) -> Option<Seq<EntryView>> {
    match tar_gz_listing(bytes) {
        Some(found) => Some(
            Seq::new(found.len(), |i: int| EntryView { name: found[i].0, is_dir: found[i].1 }),
        ),
        None => None,
    }
}

/// What any of the two readers lists in the bytes.
pub open spec fn listing_of(format: ArchiveFormat, bytes: Seq<u8>) -> Option<Seq<EntryView>> {
    match format {
        ArchiveFormat::TarGz => tar_listing(bytes),
        ArchiveFormat::Zip => zip_listing(bytes),
    }
}

/// Plans the unpacking of a zip archive, given as its bytes, into a
/// destination.
///
/// Fails with `ExtractError`, and with what the reader said as the cause,
/// where the zip reader fails on the archive or on one of its entries.
/// Otherwise the steps are those for the entries that the
/// reader lists.
pub fn extract_zip(bytes: &[u8], destination: &str) -> (r: Result<Vec<ExtractOp>, ExtractFailure>)
    ensures
        match r {
            Ok(ops) => zip_listing(bytes@) is Some && op_views(ops@) == extract_ops(
                destination@,
                zip_listing(bytes@)->0,
            ),
            Err(e) => zip_listing(bytes@) is None && e.kind == SdkError::ExtractError,
        },
{
    let count: usize = match zip_len(bytes) {
        Ok(n) => n,
        Err(e) => {
            return Err(ExtractFailure { kind: SdkError::ExtractError, cause: zip_error_text(&e) });
        },
    };
    let mut entries: Vec<ArchiveEntry> = Vec::new();
    let mut i: usize = 0;
    while i < count
        invariant
            zip_entry_count(bytes@) == Some(count as nat),
            i <= count,
            entries@.len() == i,
            forall|j: int|
                0 <= j < i ==> zip_entry_at(bytes@, j as nat) == Some(
                    ((#[trigger] entries@[j]).name@, entries@[j].is_dir),
                ),
        decreases count - i,
    {
        match zip_entry(bytes, i) {
            Ok(e) => {
                entries.push(e);
            },
            Err(e) => {
                return Err(
                    ExtractFailure { kind: SdkError::ExtractError, cause: zip_error_text(&e) },
                );
            },
        }
        i = i + 1;
    }
    proof {
        assert forall|k: nat| k < count implies (#[trigger] zip_entry_at(bytes@, k)) is Some by {
            assert(zip_entry_at(bytes@, k) == Some((entries@[k as int].name@, entries@[k as int].is_dir)));
        }
        assert(entry_views(entries@) =~= zip_listing(bytes@)->0);
    }
    Ok(plan_extraction(destination, &entries))
}

/// Plans the unpacking of a gzip-compressed tar archive, given as its bytes,
/// into a destination.
///
/// Fails with `ExtractError`, and with what the reader said as the cause,
/// where the gzip decoder or the tar reader fails. Otherwise the steps are those for the entries that the reader lists.
pub fn extract_tar_gz(bytes: &[u8], destination: &str) -> (r: Result<
    Vec<ExtractOp>,
    ExtractFailure,
>)
    ensures
        match r {
            Ok(ops) => tar_listing(bytes@) is Some && op_views(ops@) == extract_ops(
                destination@,
                tar_listing(bytes@)->0,
            ),
            Err(e) => tar_listing(bytes@) is None && e.kind == SdkError::ExtractError,
        },
{
    match tar_gz_entries(bytes) {
        Ok(entries) => {
            assert(entry_views(entries@) =~= tar_listing(bytes@)->0);
            Ok(plan_extraction(destination, &entries))
        },
        Err(e) => Err(ExtractFailure { kind: SdkError::ExtractError, cause: io_error_text(&e) }),
    }
}

/// Plans the unpacking of an archive, given by its name and its bytes, into a
/// destination.
///
/// The extension of the name decides which reader is used; a name that calls
/// for no reader is refused with `UnsupportedFormat`, whatever the bytes,
/// and the cause names the file. Where the reader fails, the result is
/// `ExtractError` with what the reader said. Otherwise the steps
/// create the destination and place every entry that the reader lists,
/// without the top-level directory where all entries share one.
pub fn extract(archive: &str, bytes: &[u8], destination: &str) -> (r: Result<
    Vec<ExtractOp>,
    ExtractFailure,
>)
    ensures
        match r {
            Ok(ops) => {
                &&& format_of(archive@) is Some
                &&& listing_of(format_of(archive@)->0, bytes@) is Some
                &&& op_views(ops@) == extract_ops(
                    destination@,
                    listing_of(format_of(archive@)->0, bytes@)->0,
                )
            },
            Err(e) => if format_of(archive@) is None {
                e.kind == SdkError::UnsupportedFormat
            } else {
                e.kind == SdkError::ExtractError && listing_of(format_of(archive@)->0, bytes@)
                    is None
            },
        },
{
    match archive_format(archive) {
        Ok(ArchiveFormat::TarGz) => extract_tar_gz(bytes, destination),
        Ok(ArchiveFormat::Zip) => extract_zip(bytes, destination),
        Err(kind) => Err(ExtractFailure { kind, cause: file_name(archive) }),
    }
}

} // verus!
