pub mod entries;
pub mod fetch;
pub mod folder;
pub mod jsondoc;
pub mod label;
pub mod link;
pub mod profile;
pub mod strutil;
pub mod unpack;

use vstd::prelude::*;

verus! {

/// The failure kinds an install invocation can surface. Every kind is fatal
/// to the invocation that raised it; nothing is retried internally.
#[derive(Clone, Copy, Debug, PartialEq, Eq, Structural)]
pub enum InstallError {
    /// The requested game version string could not be parsed.
    MalformedVersion,
    /// Zero or more than one candidate download line, or no href in the one line.
    AmbiguousOrMissingLink,
    /// The transfer failed or the integrity hash did not match.
    DownloadFailure,
    /// Required entries missing, the archive shape is unusable, or a document failed to parse.
    BadInstallerArchive,
    /// The primary jar is present without the universal jar that names its target.
    InconsistentArchive,
    /// A filesystem write or directory creation failed.
    FilesystemFailure,
}

impl InstallError {
    /// A short human-readable description of the failure kind.
    pub fn message(&self) -> (r: &'static str)
        ensures
            r@.len() > 0,
    {
        proof {
            reveal_strlit("malformed game version string");
            reveal_strlit("cannot find download link");
            reveal_strlit("download failed");
            reveal_strlit("bad forge installer jar");
            reveal_strlit("installer archive is inconsistent");
            reveal_strlit("filesystem operation failed");
        }
        match self {
            InstallError::MalformedVersion => "malformed game version string",
            InstallError::AmbiguousOrMissingLink => "cannot find download link",
            InstallError::DownloadFailure => "download failed",
            InstallError::BadInstallerArchive => "bad forge installer jar",
            InstallError::InconsistentArchive => "installer archive is inconsistent",
            InstallError::FilesystemFailure => "filesystem operation failed",
        }
    }
}

} // verus!
