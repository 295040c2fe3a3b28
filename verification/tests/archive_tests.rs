use nu_plugin_sdkman::error::SdkError;
use nu_plugin_sdkman::utils::archive::{
    archive_format, extract, extract_tar_gz, extract_zip, plan_extraction, ArchiveEntry,
    ArchiveFormat, ExtractOp,
};
use std::io::Write;

fn entry(name: &str, is_dir: bool) -> ArchiveEntry {
    ArchiveEntry { name: name.to_string(), is_dir }
}

fn show(ops: &[ExtractOp]) -> Vec<String> {
    ops.iter()
        .map(|op| match op {
            ExtractOp::MakeDir { path } => format!("dir {}", path),
            ExtractOp::WriteFile { entry, path } => format!("file {} {}", entry, path),
        })
        .collect()
}

#[test]
fn format_by_extension() {
    assert_eq!(archive_format("/tmp/x/java-17.tar.gz"), Ok(ArchiveFormat::TarGz));
    assert_eq!(archive_format("sdk.zip"), Ok(ArchiveFormat::Zip));
    assert_eq!(archive_format("sdk.tar"), Err(SdkError::UnsupportedFormat));
    assert_eq!(archive_format("sdk"), Err(SdkError::UnsupportedFormat));
    assert_eq!(archive_format(".gz"), Err(SdkError::UnsupportedFormat));
    assert_eq!(archive_format("a.zip/readme"), Err(SdkError::UnsupportedFormat));
    assert_eq!(archive_format("/dl/x.gz/"), Ok(ArchiveFormat::TarGz));
    assert_eq!(archive_format("x.zip//"), Ok(ArchiveFormat::Zip));
    assert_eq!(archive_format("/"), Err(SdkError::UnsupportedFormat));
    assert_eq!(archive_format("sdk.ZIP"), Err(SdkError::UnsupportedFormat));
    assert_eq!(archive_format(""), Err(SdkError::UnsupportedFormat));
}

#[test]
fn sole_top_level_directory_is_stripped() {
    let entries = vec![entry("X/", true), entry("X/bin/", true), entry("X/bin/test", false)];
    let ops = plan_extraction("destination", &entries);
    assert_eq!(
        show(&ops),
        vec![
            "dir destination",
            "dir destination/bin",
            "dir destination/bin",
            "file 2 destination/bin/test",
        ]
    );
}

#[test]
fn stripped_without_directory_entries() {
    let entries = vec![entry("test-sdk/bin/test", false), entry("test-sdk/README", false)];
    let ops = plan_extraction("/d", &entries);
    assert_eq!(
        show(&ops),
        vec!["dir /d", "dir /d/bin", "file 0 /d/bin/test", "dir /d", "file 1 /d/README"]
    );
}

#[test]
fn several_top_level_entries_are_left_unstripped() {
    let entries = vec![entry("X/bin/test", false), entry("Y/", true), entry("README", false)];
    let ops = plan_extraction("destination", &entries);
    assert_eq!(
        show(&ops),
        vec![
            "dir destination",
            "dir destination/X/bin",
            "file 0 destination/X/bin/test",
            "dir destination/Y",
            "dir destination",
            "file 2 destination/README",
        ]
    );
}

#[test]
fn single_top_level_file_is_left_in_place() {
    let entries = vec![entry("tool", false)];
    let ops = plan_extraction("d", &entries);
    assert_eq!(show(&ops), vec!["dir d", "dir d", "file 0 d/tool"]);
}

#[test]
fn empty_archive_creates_destination_only() {
    let ops = plan_extraction("d", &Vec::new());
    assert_eq!(show(&ops), vec!["dir d"]);
}

const SCRIPT: &[u8] = b"#!/bin/sh\necho \"test\"\n";

/// A gzip-compressed tar archive with the given entries; a name that ends in
/// `/` gives a directory.
fn tar_gz(names: &[&str]) -> Vec<u8> {
    let encoder = flate2::write::GzEncoder::new(Vec::new(), flate2::Compression::default());
    let mut builder = tar::Builder::new(encoder);
    for name in names {
        let mut header = tar::Header::new_gnu();
        header.set_mode(0o755);
        if name.ends_with('/') {
            header.set_entry_type(tar::EntryType::Directory);
            header.set_size(0);
            header.set_cksum();
            builder.append_data(&mut header, name, std::io::empty()).unwrap();
        } else {
            header.set_entry_type(tar::EntryType::Regular);
            header.set_size(SCRIPT.len() as u64);
            header.set_cksum();
            builder.append_data(&mut header, name, SCRIPT).unwrap();
        }
    }
    builder.into_inner().unwrap().finish().unwrap()
}

/// A zip archive with the given entries; a name that ends in `/` gives a
/// directory.
fn zipped(names: &[&str]) -> Vec<u8> {
    let mut writer = zip::ZipWriter::new(std::io::Cursor::new(Vec::new()));
    for name in names {
        let options = zip::write::SimpleFileOptions::default();
        if name.ends_with('/') {
            writer.add_directory(name.trim_end_matches('/'), options).unwrap();
        } else {
            writer.start_file(*name, options).unwrap();
            writer.write_all(SCRIPT).unwrap();
        }
    }
    writer.finish().unwrap().into_inner()
}

const FIXTURE: [&str; 3] = ["test-sdk/", "test-sdk/bin/", "test-sdk/bin/test"];

#[test]
fn test_extract_tar_gz() {
    let ops = extract_tar_gz(&tar_gz(&FIXTURE), "/tmp/t").unwrap();
    assert_eq!(
        show(&ops),
        vec!["dir /tmp/t", "dir /tmp/t/bin", "dir /tmp/t/bin", "file 2 /tmp/t/bin/test"]
    );
}

#[test]
fn test_extract_zip() {
    let ops = extract_zip(&zipped(&FIXTURE), "/tmp/t").unwrap();
    assert_eq!(
        show(&ops),
        vec!["dir /tmp/t", "dir /tmp/t/bin", "dir /tmp/t/bin", "file 2 /tmp/t/bin/test"]
    );
}

#[test]
fn test_extract_nonexistent_archive() {
    // Where there is no archive, there is nothing that the reader accepts.
    assert_eq!(extract_tar_gz(&[], "/tmp/t").err().map(|f| f.kind), Some(SdkError::ExtractError));
    assert_eq!(extract_tar_gz(b"no archive at all", "/tmp/t").err().map(|f| f.kind), Some(SdkError::ExtractError));
}

#[test]
fn reader_failure_keeps_its_cause() {
    let failure = extract_zip(b"no archive at all", "/tmp/t").err().unwrap();
    assert_eq!(failure.kind, SdkError::ExtractError);
    assert!(!failure.cause.is_empty());
    let failure = extract_tar_gz(b"no archive at all", "/tmp/t").err().unwrap();
    assert!(!failure.cause.is_empty());
    let failure = extract("/dl/sdk.rar", &[], "d").err().unwrap();
    assert_eq!(failure.cause, "sdk.rar");
}

#[test]
fn test_extract_zip_nonexistent() {
    assert_eq!(extract_zip(&[], "/tmp/t").err().map(|f| f.kind), Some(SdkError::ExtractError));
    assert_eq!(extract_zip(b"no archive at all", "/tmp/t").err().map(|f| f.kind), Some(SdkError::ExtractError));
    // A tar archive is no zip archive.
    assert_eq!(extract_zip(&tar_gz(&FIXTURE), "/tmp/t").err().map(|f| f.kind), Some(SdkError::ExtractError));
}

#[test]
fn test_extract_to_nonexistent_dir() {
    // The destination is made first, with every missing parent of it.
    let ops = extract_tar_gz(&tar_gz(&FIXTURE), "/tmp/t/subdir/nested").unwrap();
    assert_eq!(show(&ops)[0], "dir /tmp/t/subdir/nested");
}

#[test]
fn extract_dispatches_by_extension() {
    let tar = tar_gz(&["a/x", "b/y"]);
    let zip = zipped(&["a/x", "b/y"]);
    let unstripped = vec!["dir d", "dir d/a", "file 0 d/a/x", "dir d/b", "file 1 d/b/y"];
    assert_eq!(show(&extract("/dl/sdk.tar.gz", &tar, "d").unwrap()), unstripped);
    assert_eq!(show(&extract("sdk.zip", &zip, "d").unwrap()), unstripped);
    // The name decides, not the bytes.
    assert_eq!(extract("sdk.zip", &tar, "d").err().map(|f| f.kind), Some(SdkError::ExtractError));
    assert_eq!(extract("sdk.tar.gz", &zip, "d").err().map(|f| f.kind), Some(SdkError::ExtractError));
}

#[test]
fn unsupported_format_is_refused_before_anything() {
    assert_eq!(extract("a.rar", &tar_gz(&FIXTURE), "d").err().map(|f| f.kind), Some(SdkError::UnsupportedFormat));
    assert_eq!(extract("a", &[], "d").err().map(|f| f.kind), Some(SdkError::UnsupportedFormat));
}

#[test]
fn long_names_are_listed_whole() {
    let long = format!("top/{}/file", "d".repeat(150));
    let ops = extract_tar_gz(&tar_gz(&[&long, "top/other"]), "d").unwrap();
    assert_eq!(
        show(&ops),
        vec![
            "dir d".to_string(),
            format!("dir d/{}", "d".repeat(150)),
            format!("file 0 d/{}/file", "d".repeat(150)),
            "dir d".to_string(),
            "file 1 d/other".to_string(),
        ]
    );
}

#[test]
fn climbing_entries_are_passed_over() {
    let entries = vec![
        entry("../evil", false),
        entry("a/../../evil", false),
        entry("a/..b/ok", false),
        entry("..", true),
    ];
    let ops = plan_extraction("d", &entries);
    assert_eq!(show(&ops), vec!["dir d", "dir d/a/..b", "file 2 d/a/..b/ok"]);
}

#[test]
fn sole_top_level_directory_is_stripped_whatever_its_name() {
    let entries = vec![entry("../", true), entry("../bin/test", false)];
    let ops = plan_extraction("destination", &entries);
    assert_eq!(show(&ops), vec!["dir destination", "dir destination/bin", "file 1 destination/bin/test"]);
}

#[test]
fn zip_names_are_sanitised_by_the_reader() {
    let ops = extract_zip(&zipped(&["a/../b/x", "/abs/y", "c\\d/z"]), "d").unwrap();
    assert_eq!(
        show(&ops),
        vec!["dir d", "dir d/a/b", "file 0 d/a/b/x", "dir d/abs", "file 1 d/abs/y", "dir d/c/d", "file 2 d/c/d/z"]
    );
}
