//! The failures that the library reports.

use vstd::prelude::*;

verus! {

/// Why an operation of the library did not succeed.
#[derive(Clone, Copy, Debug, PartialEq, Eq, Structural)]
pub enum SdkError {
    /// The installation that an operation needs does not exist.
    NotInstalled,
    /// The installation that an operation would create exists already.
    AlreadyInstalled,
    /// The archive's name has an extension that no reader handles.
    UnsupportedFormat,
    /// The archive could not be decoded or written out.
    ExtractError,
    /// The remote fetch failed.
    FetchError,
    /// No platform token exists for the operating system and architecture.
    UnsupportedPlatform,
    /// A filesystem step failed.
    IoError,
    /// The project descriptor is missing.
    DescriptorNotFound,
    /// Neither a store directory is configured nor a home directory known.
    NoHomeDirectory,
    /// The project has no overlay.
    NoLocalEnvironment,
    /// The candidate has no current version.
    NoCurrentVersion,
    /// The project has a descriptor already.
    DescriptorExists,
    /// The catalog does not list the candidate.
    UnknownCandidate,
    /// The catalog lists no version of the candidate.
    NoVersions,
    /// A command was given a word that it does not know.
    UnknownArgument,
}

} // verus!
