//! What can go wrong during the bootstrap, and how it is worded for the user.

use vstd::prelude::*;
use vstd::string::*;
use crate::text::decimal;
use crate::text::decimal_text;

verus! {

/// Why unpacking the bundle failed. `path` is the path concerned as the
/// caller displays it, `cause` the underlying error in words.
pub enum ExtractionError {
    /// The bundled archive does not exist.
    BundleMissing { path: String },
    /// The server tree of an earlier version could not be removed.
    CleanFailed { cause: String },
    /// The server directory could not be created.
    CreateServerDirFailed { cause: String },
    /// The bundled archive could not be opened.
    OpenFailed { cause: String },
    /// The bundled archive could not be read, or is not an archive.
    ArchiveUnreadable { cause: String },
    /// The entry at `index` could not be read from the archive.
    EntryUnreadable { index: usize, cause: String },
    /// An entry's name is not a safe relative path: unpacking it could write
    /// outside the server directory.
    InvalidEntryName,
    /// The directory of a directory entry could not be created.
    CreateDirFailed { path: String, cause: String },
    /// The parent directory of a file entry could not be created.
    CreateParentFailed { path: String, cause: String },
    /// The file of a file entry could not be created.
    CreateFileFailed { path: String, cause: String },
    /// The content of a file entry could not be written in full.
    WriteFailed { path: String, cause: String },
}

/// Why the bootstrap failed. None of these is retried: the user has to
/// restart the application.
pub enum BootstrapError {
    /// Unpacking the bundle failed.
    Extraction(ExtractionError),
    /// The server's entry point is missing although unpacking was not needed
    /// or has succeeded.
    ServerFilesMissing,
    /// The runtime executable `runtime` could not be launched.
    Spawn { cause: String, runtime: String },
    /// The server did not accept a connection within the attempt budget.
    Timeout,
}

/// Why the application cannot start at all. These are fatal at setup: no
/// error page is shown for them.
#[derive(Clone, Copy, PartialEq, Eq, Debug, Structural)]
pub enum ConfigurationError {
    /// The application's resource directory cannot be resolved.
    ResourceDirUnresolved,
    /// The application has no main view.
    MainViewMissing,
}

impl ConfigurationError {
    /// The error in words.
    pub open spec fn text(self) -> Seq<char> {
        match self {
            ConfigurationError::ResourceDirUnresolved => "failed to resolve resource dir"@,
            ConfigurationError::MainViewMissing => "main window not found"@,
        }
    }

    /// Words the error for the log.
    pub fn message(&self) -> (message: String)
        ensures
            message@ == self.text(),
    {
        match self {
            ConfigurationError::ResourceDirUnresolved => String::from_str(
                "failed to resolve resource dir",
            ),
            ConfigurationError::MainViewMissing => String::from_str("main window not found"),
        }
    }
}

impl ExtractionError {
    /// Whether two errors are of the same kind and say the same of the same
    /// path, entry and cause.
    pub open spec fn same(self, other: ExtractionError) -> bool {
        match (self, other) {
            (
                ExtractionError::BundleMissing { path: p },
                ExtractionError::BundleMissing { path: q },
            ) => p@ == q@,
            (
                ExtractionError::CleanFailed { cause: c },
                ExtractionError::CleanFailed { cause: d },
            ) => c@ == d@,
            (
                ExtractionError::CreateServerDirFailed { cause: c },
                ExtractionError::CreateServerDirFailed { cause: d },
            ) => c@ == d@,
            (
                ExtractionError::OpenFailed { cause: c },
                ExtractionError::OpenFailed { cause: d },
            ) => c@ == d@,
            (
                ExtractionError::ArchiveUnreadable { cause: c },
                ExtractionError::ArchiveUnreadable { cause: d },
            ) => c@ == d@,
            (
                ExtractionError::EntryUnreadable { index: i, cause: c },
                ExtractionError::EntryUnreadable { index: j, cause: d },
            ) => i == j && c@ == d@,
            (ExtractionError::InvalidEntryName, ExtractionError::InvalidEntryName) => true,
            (
                ExtractionError::CreateDirFailed { path: p, cause: c },
                ExtractionError::CreateDirFailed { path: q, cause: d },
            ) => p@ == q@ && c@ == d@,
            (
                ExtractionError::CreateParentFailed { path: p, cause: c },
                ExtractionError::CreateParentFailed { path: q, cause: d },
            ) => p@ == q@ && c@ == d@,
            (
                ExtractionError::CreateFileFailed { path: p, cause: c },
                ExtractionError::CreateFileFailed { path: q, cause: d },
            ) => p@ == q@ && c@ == d@,
            (
                ExtractionError::WriteFailed { path: p, cause: c },
                ExtractionError::WriteFailed { path: q, cause: d },
            ) => p@ == q@ && c@ == d@,
            _ => false,
        }
    }

    /// The error in words.
    pub open spec fn text(self) -> Seq<char> {
        match self {
            ExtractionError::BundleMissing { path } => "Server bundle not found: "@ + path@,
            ExtractionError::CleanFailed { cause } => "Failed to clean old server: "@ + cause@,
            ExtractionError::CreateServerDirFailed { cause } => "Failed to create server dir: "@
                + cause@,
            ExtractionError::OpenFailed { cause } => "Failed to open zip: "@ + cause@,
            ExtractionError::ArchiveUnreadable { cause } => "Failed to read zip: "@ + cause@,
            ExtractionError::EntryUnreadable { index, cause } => "Failed to read entry "@ + decimal(
                index as nat,
            ) + ": "@ + cause@,
            ExtractionError::InvalidEntryName => "Invalid zip entry name"@,
            ExtractionError::CreateDirFailed { path, cause } => "Failed to create dir "@ + path@
                + ": "@ + cause@,
            ExtractionError::CreateParentFailed { path, cause } => "Failed to create parent dir "@
                + path@ + ": "@ + cause@,
            ExtractionError::CreateFileFailed { path, cause } => "Failed to create file "@ + path@
                + ": "@ + cause@,
            ExtractionError::WriteFailed { path, cause } => "Failed to write "@ + path@ + ": "@
                + cause@,
        }
    }

    /// Words the error for the user.
    pub fn message(&self) -> (message: String)
        ensures
            message@ == self.text(),
    {
        match self {
            ExtractionError::BundleMissing { path } => prefixed(
                "Server bundle not found: ",
                path.as_str(),
            ),
            ExtractionError::CleanFailed { cause } => prefixed(
                "Failed to clean old server: ",
                cause.as_str(),
            ),
            ExtractionError::CreateServerDirFailed { cause } => prefixed(
                "Failed to create server dir: ",
                cause.as_str(),
            ),
            ExtractionError::OpenFailed { cause } => prefixed(
                "Failed to open zip: ",
                cause.as_str(),
            ),
            ExtractionError::ArchiveUnreadable { cause } => prefixed(
                "Failed to read zip: ",
                cause.as_str(),
            ),
            ExtractionError::EntryUnreadable { index, cause } => {
                let number = decimal_text(*index as u64);
                about("Failed to read entry ", number.as_str(), cause.as_str())
            },
            ExtractionError::InvalidEntryName => String::from_str("Invalid zip entry name"),
            ExtractionError::CreateDirFailed { path, cause } => about(
                "Failed to create dir ",
                path.as_str(),
                cause.as_str(),
            ),
            ExtractionError::CreateParentFailed { path, cause } => about(
                "Failed to create parent dir ",
                path.as_str(),
                cause.as_str(),
            ),
            ExtractionError::CreateFileFailed { path, cause } => about(
                "Failed to create file ",
                path.as_str(),
                cause.as_str(),
            ),
            ExtractionError::WriteFailed { path, cause } => about(
                "Failed to write ",
                path.as_str(),
                cause.as_str(),
            ),
        }
    }
}

impl BootstrapError {
    /// The heading of the error page.
    pub open spec fn title_text(self) -> Seq<char> {
        match self {
            BootstrapError::Extraction(_) => "Setup Failed"@,
            BootstrapError::ServerFilesMissing => "Error"@,
            BootstrapError::Spawn { .. } => "Startup Error"@,
            BootstrapError::Timeout => "Server Timeout"@,
        }
    }

    /// The error in words.
    pub open spec fn text(self) -> Seq<char> {
        match self {
            BootstrapError::Extraction(error) => error.text(),
            BootstrapError::ServerFilesMissing => "Server files not found after extraction."@,
            BootstrapError::Spawn { cause, runtime } => spawn_failure_text(cause@, runtime@),
            BootstrapError::Timeout =>
                "The server did not respond within 30 seconds. Please restart the application."@,
        }
    }

    /// The heading under which the error is shown.
    pub fn title(&self) -> (title: String)
        ensures
            title@ == self.title_text(),
    {
        match self {
            BootstrapError::Extraction(_) => String::from_str("Setup Failed"),
            BootstrapError::ServerFilesMissing => String::from_str("Error"),
            BootstrapError::Spawn { .. } => String::from_str("Startup Error"),
            BootstrapError::Timeout => String::from_str("Server Timeout"),
        }
    }

    /// Words the error for the user.
    pub fn message(&self) -> (message: String)
        ensures
            message@ == self.text(),
    {
        match self {
            BootstrapError::Extraction(error) => error.message(),
            BootstrapError::ServerFilesMissing => String::from_str(
                "Server files not found after extraction.",
            ),
            BootstrapError::Spawn { cause, runtime } => {
                let mut message = String::from_str("Failed to start Node.js: ");
                message.append(cause.as_str());
                message.append(". Path: ");
                message.append(runtime.as_str());
                message
            },
            BootstrapError::Timeout => String::from_str(
                "The server did not respond within 30 seconds. Please restart the application.",
            ),
        }
    }
}

/// The words for a runtime executable `runtime` that could not be launched
/// for `cause`.
pub open spec fn spawn_failure_text(cause: Seq<char>, runtime: Seq<char>) -> Seq<char> {
    "Failed to start Node.js: "@ + cause + ". Path: "@ + runtime
}

/// `label` followed by `detail`.
fn prefixed(label: &str, detail: &str) -> (message: String)
    ensures
        message@ == label@ + detail@,
{
    let mut message = String::from_str(label);
    message.append(detail);
    message
}

/// `label`, `subject`, a colon and a space, and `cause`.
fn about(label: &str, subject: &str, cause: &str) -> (message: String)
    ensures
        message@ == label@ + subject@ + ": "@ + cause@,
{
    let mut message = String::from_str(label);
    message.append(subject);
    message.append(": ");
    message.append(cause);
    message
}

} // verus!
