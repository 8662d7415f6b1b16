use server_bootstrap::errors::{BootstrapError, ConfigurationError, ExtractionError};
use server_bootstrap::text::decimal_text;

fn s(text: &str) -> String {
    text.to_string()
}

#[test]
fn extraction_errors_are_worded_one_by_one() {
    assert_eq!(
        ExtractionError::BundleMissing { path: s("/r/server-bundle.zip") }.message(),
        "Server bundle not found: /r/server-bundle.zip"
    );
    assert_eq!(
        ExtractionError::CleanFailed { cause: s("busy") }.message(),
        "Failed to clean old server: busy"
    );
    assert_eq!(
        ExtractionError::CreateServerDirFailed { cause: s("denied") }.message(),
        "Failed to create server dir: denied"
    );
    assert_eq!(
        ExtractionError::OpenFailed { cause: s("gone") }.message(),
        "Failed to open zip: gone"
    );
    assert_eq!(
        ExtractionError::ArchiveUnreadable { cause: s("invalid Zip archive: x") }.message(),
        "Failed to read zip: invalid Zip archive: x"
    );
    assert_eq!(
        ExtractionError::EntryUnreadable { index: 0, cause: s("i/o error") }.message(),
        "Failed to read entry 0: i/o error"
    );
    assert_eq!(
        ExtractionError::EntryUnreadable { index: 1207, cause: s("i/o error") }.message(),
        "Failed to read entry 1207: i/o error"
    );
    assert_eq!(ExtractionError::InvalidEntryName.message(), "Invalid zip entry name");
    assert_eq!(
        ExtractionError::CreateDirFailed { path: s("/d/server/a"), cause: s("full") }.message(),
        "Failed to create dir /d/server/a: full"
    );
    assert_eq!(
        ExtractionError::CreateParentFailed { path: s("/d/server/a"), cause: s("full") }.message(),
        "Failed to create parent dir /d/server/a: full"
    );
    assert_eq!(
        ExtractionError::CreateFileFailed { path: s("/d/server/a.js"), cause: s("full") }.message(),
        "Failed to create file /d/server/a.js: full"
    );
    assert_eq!(
        ExtractionError::WriteFailed { path: s("/d/server/a.js"), cause: s("full") }.message(),
        "Failed to write /d/server/a.js: full"
    );
}

#[test]
fn bootstrap_errors_have_titles_and_messages() {
    let extraction = BootstrapError::Extraction(ExtractionError::InvalidEntryName);
    assert_eq!(extraction.title(), "Setup Failed");
    assert_eq!(extraction.message(), "Invalid zip entry name");

    assert_eq!(BootstrapError::ServerFilesMissing.title(), "Error");
    assert_eq!(
        BootstrapError::ServerFilesMissing.message(),
        "Server files not found after extraction."
    );

    let spawn = BootstrapError::Spawn { cause: s("program not found"), runtime: s("node") };
    assert_eq!(spawn.title(), "Startup Error");
    assert_eq!(spawn.message(), "Failed to start Node.js: program not found. Path: node");

    assert_eq!(BootstrapError::Timeout.title(), "Server Timeout");
    assert_eq!(
        BootstrapError::Timeout.message(),
        "The server did not respond within 30 seconds. Please restart the application."
    );
}

#[test]
fn decimal_text_writes_numbers_without_leading_zeros() {
    assert_eq!(decimal_text(0), "0");
    assert_eq!(decimal_text(7), "7");
    assert_eq!(decimal_text(10), "10");
    assert_eq!(decimal_text(13210), "13210");
    assert_eq!(decimal_text(9_000_000_009), "9000000009");
    assert_eq!(decimal_text(u64::MAX), "18446744073709551615");
}

#[test]
fn configuration_errors_are_worded() {
    assert_eq!(
        ConfigurationError::ResourceDirUnresolved.message(),
        "failed to resolve resource dir"
    );
    assert_eq!(ConfigurationError::MainViewMissing.message(), "main window not found");
}
