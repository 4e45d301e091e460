//! Structured failures of the backup subsystem and their rendering as the
//! single human-readable string that crosses the trust boundary.

use vstd::prelude::*;

verus! {

/// The cause text the in-memory file system reports when a destination's
/// containing directory is absent.
pub open spec fn dest_missing_msg() -> Seq<char> {
    "destination directory does not exist"@
}

/// The cause text the in-memory file system reports when a duplication source
/// is absent.
pub open spec fn source_missing_msg() -> Seq<char> {
    "source file not found"@
}

/// Which expected source file was absent when an operation probed for it.
#[derive(Clone, Copy, Debug, PartialEq, Eq, Structural)]
pub enum SourceKind {
    /// The live database file under the application data directory.
    LiveDatabase,
    /// A previously created backup artifact.
    BackupArtifact,
}

/// A failure of one of the privileged file-system operations.
#[derive(Debug)]
pub enum Error {
    /// The host platform could not supply an application data directory.
    ResolutionError,
    /// An expected source file was absent.
    SourceNotFound(SourceKind),
    /// Directory creation or file duplication failed at the file-system
    /// level; the payload carries the underlying cause as text.
    IoError(String),
}

impl Error {
    /// The exact message shown to the untrusted front-end for this failure.
    pub open spec fn message_view(self) -> Seq<char> {
        match self {
            Error::ResolutionError => "Failed to get app data directory"@,
            Error::SourceNotFound(SourceKind::LiveDatabase) => "Database file not found"@,
            Error::SourceNotFound(SourceKind::BackupArtifact) => "Backup file not found"@,
            Error::IoError(cause) => cause@,
        }
    }

    /// Flattens the failure to the one string the front-end can display.
    pub fn message(&self) -> (r: String)
        ensures
            r@ == self.message_view(),
    {
        match self {
            Error::ResolutionError => String::from_str("Failed to get app data directory"),
            Error::SourceNotFound(SourceKind::LiveDatabase) => String::from_str(
                "Database file not found",
            ),
            Error::SourceNotFound(SourceKind::BackupArtifact) => String::from_str(
                "Backup file not found",
            ),
            Error::IoError(cause) => cause.clone(),
        }
    }
}

} // verus!
