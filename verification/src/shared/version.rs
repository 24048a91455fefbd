//! The version of the library, and the end of its life.

use crate::shared::error::DomainError;
use crate::shared::size::{format_bytes, size_in_words};
use vstd::prelude::*;
use vstd::string::*;

verus! {

/// Application version information.
#[derive(Debug, Clone)]
pub struct VersionInfo {
    pub version: String,
    pub build_date: String,
    pub git_commit: String,
}

/// The first characters of a text, up to a number of them.
pub open spec fn leading(text: Seq<char>, count: nat) -> Seq<char> {
    if text.len() > count {
        text.subrange(0, count as int)
    } else {
        text
    }
}

impl VersionInfo {
    /// The version in words: the version number, the build date, and the
    /// first eight characters of the commit.
    pub open spec fn spec_to_string(self) -> Seq<char> {
        "v"@ + self.version@ + " (built "@ + self.build_date@ + " from "@ + leading(
            self.git_commit@,
            8,
        ) + ")"@
    }

    /// Describes the version in words.
    pub fn to_string(&self) -> (s: String)
        ensures
            s@ == self.spec_to_string(),
    {
        let commit = self.git_commit.as_str();
        let short = if commit.unicode_len() > 8 {
            commit.substring_char(0, 8)
        } else {
            commit
        };
        String::from_str("v").concat(self.version.as_str()).concat(" (built ").concat(
            self.build_date.as_str(),
        ).concat(" from ").concat(short).concat(")")
    }
}

/// Gets the version information of the library.
pub fn get_version_info() -> (info: VersionInfo)
    ensures
        info.version@ == "0.1.0"@,
        info.build_date@ == "unknown"@,
        info.git_commit@ == "unknown"@,
{
    VersionInfo {
        version: String::from_str("0.1.0"),
        build_date: String::from_str("unknown"),
        git_commit: String::from_str("unknown"),
    }
}

/// Formats a size in human-readable form, with units up to PB.
pub fn format_file_size(bytes: u64) -> (s: String)
    ensures
        s@ == size_in_words(bytes as nat, 5),
{
    format_bytes(bytes)
}

/// Releases what the shared helpers hold: nothing, so this never fails.
pub fn cleanup() -> (r: Result<(), DomainError>)
    ensures
        r is Ok,
{
    Ok(())
}

} // verus!
