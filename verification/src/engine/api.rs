//! What the remote catalog's answers mean, and the addresses it is asked at.
//!
//! The catalog is reached by the caller. This module builds the addresses and
//! reads the comma-separated texts that come back.

use crate::error::SdkError;
use crate::utils::text::{
    chars_of, find_char, first_index, Span, span_equals, split, split_spans, string_of, trim,
    trim_span,
};
use vstd::prelude::*;
use vstd::string::StringExecFns;

verus! {

/// One version of a candidate, as the catalog lists it.
#[derive(Debug, Clone)]
pub struct VersionInfo {
    pub version: String,
    pub vendor: String,
    pub default: bool,
}

/// The vendor that a version identifier names: what follows its first hyphen.
pub open spec fn vendor_of(version: Seq<char>) -> Seq<char> {
    let k = first_index(version, '-');
    if k < version.len() {
        version.skip(k + 1)
    } else {
        Seq::<char>::empty()
    }
}

/// Each piece trimmed, in order.
pub open spec fn trimmed(pieces: Seq<Seq<char>>) -> Seq<Seq<char>> {
    Seq::new(pieces.len(), |i: int| trim(pieces[i]))
}

/// The pieces that are not empty once trimmed, trimmed and in order.
pub open spec fn filled(pieces: Seq<Seq<char>>) -> Seq<Seq<char>>
    decreases pieces.len(),
{
    if pieces.len() == 0 {
        Seq::<Seq<char>>::empty()
    } else if trim(pieces.last()).len() > 0 {
        filled(pieces.drop_last()).push(trim(pieces.last()))
    } else {
        filled(pieces.drop_last())
    }
}

/// The version identifiers that a comma-separated catalog text lists.
pub open spec fn versions_in(text: Seq<char>) -> Seq<Seq<char>> {
    filled(split(text, ','))
}

/// The candidate names that a comma-separated catalog text lists.
pub open spec fn candidates_in(text: Seq<char>) -> Seq<Seq<char>> {
    trimmed(split(text, ','))
}

/// Reads a comma-separated list of version identifiers.
///
/// Each item is trimmed, empty items are left out, and the vendor of an item
/// is what follows its first hyphen.
pub fn parse_versions_text(text: &str) -> (r: Vec<VersionInfo>)
    ensures
        r@.len() == versions_in(text@).len(),
        forall|i: int|
            0 <= i < r@.len() ==> {
                &&& (#[trigger] r@[i]).version@ == versions_in(text@)[i]
                &&& r@[i].vendor@ == vendor_of(versions_in(text@)[i])
                &&& !r@[i].default
            },
{
    let chars = chars_of(text);
    let spans = split_spans(&chars, 0, chars.len(), ',');
    let ghost pieces = split(text@, ',');
    assert(chars@.subrange(0, chars@.len() as int) =~= text@);
    let mut r: Vec<VersionInfo> = Vec::new();
    let mut j: usize = 0;
    while j < spans.len()
        invariant
            chars@ == text@,
            pieces == split(text@, ','),
            spans@.len() == pieces.len(),
            forall|n: int|
                0 <= n < spans@.len() ==> (#[trigger] spans@[n]).within(0, chars@.len() as int)
                    && spans@[n].of(chars@) == pieces[n],
            j <= spans@.len(),
            r@.len() == filled(pieces.take(j as int)).len(),
            forall|i: int|
                0 <= i < r@.len() ==> {
                    &&& (#[trigger] r@[i]).version@ == filled(pieces.take(j as int))[i]
                    &&& r@[i].vendor@ == vendor_of(filled(pieces.take(j as int))[i])
                    &&& !r@[i].default
                },
        decreases spans@.len() - j,
    {
        let piece: Span = spans[j];
        let t = trim_span(&chars, piece.lo, piece.hi);
        proof {
            assert(pieces.take(j + 1).drop_last() =~= pieces.take(j as int));
            assert(pieces.take(j + 1).last() == pieces[j as int]);
        }
        if t.lo < t.hi {
            let version = string_of(&chars, t.lo, t.hi);
            let k = find_char(&chars, t.lo, t.hi, '-');
            let vendor = if k < t.hi {
                string_of(&chars, k + 1, t.hi)
            } else {
                String::new()
            };
            proof {
                if k < t.hi {
                    assert(chars@.subrange(k + 1, t.hi as int) =~= t.of(chars@).skip(
                        k - t.lo + 1,
                    ));
                }
            }
            r.push(VersionInfo { version, vendor, default: false });
        }
        j = j + 1;
    }
    assert(pieces.take(spans@.len() as int) =~= pieces);
    r
}

/// Reads the comma-separated list of candidate names: each item trimmed,
/// none left out.
pub fn get_candidates(catalog: &str) -> (r: Vec<String>)
    ensures
        r@.len() == candidates_in(catalog@).len(),
        forall|i: int| 0 <= i < r@.len() ==> (#[trigger] r@[i])@ == candidates_in(catalog@)[i],
{
    let chars = chars_of(catalog);
    let spans = split_spans(&chars, 0, chars.len(), ',');
    assert(chars@.subrange(0, chars@.len() as int) =~= catalog@);
    let mut r: Vec<String> = Vec::new();
    let mut j: usize = 0;
    while j < spans.len()
        invariant
            chars@ == catalog@,
            spans@.len() == split(catalog@, ',').len(),
            forall|n: int|
                0 <= n < spans@.len() ==> (#[trigger] spans@[n]).within(0, chars@.len() as int)
                    && spans@[n].of(chars@) == split(catalog@, ',')[n],
            j <= spans@.len(),
            r@.len() == j,
            forall|i: int| 0 <= i < j ==> (#[trigger] r@[i])@ == trim(split(catalog@, ',')[i]),
        decreases spans@.len() - j,
    {
        let piece: Span = spans[j];
        let t = trim_span(&chars, piece.lo, piece.hi);
        r.push(string_of(&chars, t.lo, t.hi));
        j = j + 1;
    }
    r
}

/// Whether the catalog's list of candidates names `candidate`.
///
/// The list is the comma-separated text that the catalog answered with.
pub fn validate_candidate(candidate: &str, catalog: &str) -> (r: Result<(), SdkError>)
    ensures
        r is Ok <==> candidates_in(catalog@).contains(candidate@),
        r is Err ==> r == Err::<(), SdkError>(SdkError::UnknownCandidate),
{
    let chars = chars_of(catalog);
    let want = chars_of(candidate);
    let spans = split_spans(&chars, 0, chars.len(), ',');
    assert(chars@.subrange(0, chars@.len() as int) =~= catalog@);
    let ghost names = candidates_in(catalog@);
    let mut j: usize = 0;
    while j < spans.len()
        invariant
            chars@ == catalog@,
            want@ == candidate@,
            names == candidates_in(catalog@),
            spans@.len() == split(catalog@, ',').len(),
            forall|n: int|
                0 <= n < spans@.len() ==> (#[trigger] spans@[n]).within(0, chars@.len() as int)
                    && spans@[n].of(chars@) == split(catalog@, ',')[n],
            j <= spans@.len(),
            forall|i: int| 0 <= i < j ==> names[i] != candidate@,
        decreases spans@.len() - j,
    {
        let piece: Span = spans[j];
        let t = trim_span(&chars, piece.lo, piece.hi);
        if span_equals(&chars, t.lo, t.hi, &want) {
            assert(names[j as int] == candidate@);
            return Ok(());
        }
        j = j + 1;
    }
    Err(SdkError::UnknownCandidate)
}

/// The version that the catalog offers by default: the first that its
/// comma-separated list of versions names.
pub fn get_default_version(catalog: &str) -> (r: Result<String, SdkError>)
    ensures
        match r {
            Ok(v) => versions_in(catalog@).len() > 0 && v@ == versions_in(catalog@)[0],
            Err(e) => versions_in(catalog@).len() == 0 && e == SdkError::NoVersions,
        },
{
    let versions = parse_versions_text(catalog);
    if versions.len() > 0 {
        Ok(versions[0].version.clone())
    } else {
        Err(SdkError::NoVersions)
    }
}

/// The address that serves the archive of one version on one platform.
pub open spec fn download_url(
    candidate: Seq<char>,
    version: Seq<char>,
    platform: Seq<char>,
) -> Seq<char> {
    "https://api.sdkman.io/2"@ + "/broker/download/"@ + candidate + "/"@ + version + "/"@
        + platform
}

/// The address that lists the versions of a candidate on one platform.
pub open spec fn versions_url(candidate: Seq<char>, platform: Seq<char>) -> Seq<char> {
    "https://api.sdkman.io/2"@ + "/candidates/"@ + candidate + "/"@ + platform
        + "/versions/all"@
}

/// The address that lists all candidates, separated by commas.
pub open spec fn candidates_url() -> Seq<char> {
    "https://api.sdkman.io/2"@ + "/candidates/all"@
}

/// The address that lists all candidates, laid out for display.
pub open spec fn candidates_list_url() -> Seq<char> {
    "https://api.sdkman.io/2"@ + "/candidates/list"@
}

/// The address that serves the table of the versions of a candidate on one
/// platform, with the current and the installed versions marked.
pub open spec fn versions_list_url(
    candidate: Seq<char>,
    platform: Seq<char>,
    current: Seq<char>,
    installed: Seq<char>,
) -> Seq<char> {
    "https://api.sdkman.io/2"@ + "/candidates/"@ + candidate + "/"@ + platform
        + "/versions/list?current="@ + current + "&installed="@ + installed
}

/// Builds the address that lists all candidates, separated by commas.
pub fn get_candidates_url() -> (r: String)
    ensures
        r@ == candidates_url(),
{
    let mut r = String::from_str("https://api.sdkman.io/2");
    r.append("/candidates/all");
    r
}

/// Builds the address that lists all candidates, laid out for display.
pub fn get_candidates_list_url() -> (r: String)
    ensures
        r@ == candidates_list_url(),
{
    let mut r = String::from_str("https://api.sdkman.io/2");
    r.append("/candidates/list");
    r
}

/// Builds the address that serves the table of the versions of a candidate.
pub fn get_versions_list_url(candidate: &str, platform: &str, current: &str, installed: &str) -> (r:
    String)
    ensures
        r@ == versions_list_url(candidate@, platform@, current@, installed@),
{
    let mut r = String::from_str("https://api.sdkman.io/2");
    r.append("/candidates/");
    r.append(candidate);
    r.append("/");
    r.append(platform);
    r.append("/versions/list?current=");
    r.append(current);
    r.append("&installed=");
    r.append(installed);
    r
}

/// Builds the address that serves the archive of one version on one platform.
pub fn get_download_url(candidate: &str, version: &str, platform: &str) -> (r: String)
    ensures
        r@ == download_url(candidate@, version@, platform@),
{
    let mut r = String::from_str("https://api.sdkman.io/2");
    r.append("/broker/download/");
    r.append(candidate);
    r.append("/");
    r.append(version);
    r.append("/");
    r.append(platform);
    r
}

/// Builds the address that lists the versions of a candidate on one platform.
pub fn get_versions_url(candidate: &str, platform: &str) -> (r: String)
    ensures
        r@ == versions_url(candidate@, platform@),
{
    let mut r = String::from_str("https://api.sdkman.io/2");
    r.append("/candidates/");
    r.append(candidate);
    r.append("/");
    r.append(platform);
    r.append("/versions/all");
    r
}

} // verus!
