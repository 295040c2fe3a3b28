//! The archive readers: what the crates `flate2`, `tar` and `zip` find in the
//! bytes of an archive.
//!
//! Nothing in this file is proved. Each item states what a reader of another
//! crate returns, and the extraction is verified against these statements.

use crate::utils::archive::ArchiveEntry;
use vstd::prelude::*;

verus! {

/// The error of the standard library's readers.
#[verifier::external_type_specification]
#[verifier::external_body]
pub struct ExIoError(std::io::Error);

/// The error of the zip reader.
#[verifier::external_type_specification]
#[verifier::external_body]
pub struct ExZipError(zip::result::ZipError);

/// The number of entries that the zip reader finds in the bytes; nothing
/// where it cannot read them as a zip archive.
pub uninterp spec fn zip_entry_count(bytes: Seq<u8>) -> Option<nat>;

/// The path of the entry with the given index that the zip reader finds in
/// the bytes, as the reader sanitises it and with `/` between its segments,
/// and whether the entry is a directory; nothing where the reader fails on
/// the archive or on the entry.
pub uninterp spec fn zip_entry_at(bytes: Seq<u8>, index: nat) -> Option<(Seq<char>, bool)>;

/// The names of the entries that the tar reader finds in the bytes after
/// the gzip decoder has unpacked them, in the archive's order, each with
/// whether the entry is a directory; nothing where either fails.
pub uninterp spec fn tar_gz_listing(bytes: Seq<u8>) -> Option<Seq<(Seq<char>, bool)>>;

/// The text of an error of the standard library's readers, as its `Display`
/// writes it. Nothing is claimed of the text.
#[verifier::external_body]
pub(crate) fn io_error_text(e: &std::io::Error) -> String {
    format!("{}", e)
}

/// The text of an error of the zip reader, as its `Display` writes it.
/// Nothing is claimed of the text.
#[verifier::external_body]
pub(crate) fn zip_error_text(e: &zip::result::ZipError) -> String {
    format!("{}", e)
}

/// `zip::ZipArchive::new` on the bytes, then `ZipArchive::len`: the number of
/// entries that the archive's central directory lists. The result depends on
/// the bytes alone, which is all that the contract claims.
#[verifier::external_body]
pub(crate) fn zip_len(bytes: &[u8]) -> (r: Result<usize, zip::result::ZipError>)
    ensures
        match r {
            Ok(n) => zip_entry_count(bytes@) == Some(n as nat),
            Err(_) => zip_entry_count(bytes@) is None,
        },
{
    Ok(zip::ZipArchive::new(std::io::Cursor::new(bytes))?.len())
}

/// `zip::ZipArchive::by_index` on the archive in the bytes, then
/// `mangled_name` and `is_dir` of the entry found. The sanitised path keeps
/// the ordinary segments of the entry's name, read by one set of rules on
/// every platform; they are handed out with `/` between them. An index that
/// the archive does not have is an error of the reader. The result depends on
/// the bytes and the index alone, which is all that the contract claims.
#[verifier::external_body]
pub(crate) fn zip_entry(bytes: &[u8], index: usize) -> (r: Result<
    ArchiveEntry,
    zip::result::ZipError,
>)
    ensures
        match r {
            Ok(e) => zip_entry_at(bytes@, index as nat) == Some((e.name@, e.is_dir)),
            Err(_) => zip_entry_at(bytes@, index as nat) is None,
        },
{
    let mut archive = zip::ZipArchive::new(std::io::Cursor::new(bytes))?;
    let file = archive.by_index(index)?;
    let path = file.mangled_name()?;
    let parts: Vec<String> = path.iter().map(|p| p.to_string_lossy().into_owned()).collect();
    Ok(ArchiveEntry { name: parts.join("/"), is_dir: file.is_dir() })
}

/// `tar::Archive::entries` over `flate2::read::GzDecoder` on the bytes: for
/// each entry in turn its `path_bytes`, read as UTF-8 with replacement
/// characters, and whether its header's `entry_type` is a directory. The
/// result depends on the bytes alone, which is all that the contract claims.
#[verifier::external_body]
pub(crate) fn tar_gz_entries(bytes: &[u8]) -> (r: Result<Vec<ArchiveEntry>, std::io::Error>)
    ensures
        match r {
            Ok(v) => tar_gz_listing(bytes@) == Some(
                Seq::new(v@.len(), |i: int| (v@[i].name@, v@[i].is_dir)),
            ),
            Err(_) => tar_gz_listing(bytes@) is None,
        },
{
    let mut archive = tar::Archive::new(flate2::read::GzDecoder::new(bytes));
    let mut out = Vec::new();
    for entry in archive.entries()? {
        let entry = entry?;
        let name = String::from_utf8_lossy(&entry.path_bytes()).into_owned();
        out.push(ArchiveEntry { name, is_dir: entry.header().entry_type().is_dir() });
    }
    Ok(out)
}

} // verus!
