use server_bootstrap::errors::ExtractionError;
use server_bootstrap::archive::EntryKind;
use server_bootstrap::extract::{entry_request, Extraction, Reply, Request};
use std::io::Write;
use zip::unstable::write::FileOptionsExt;

fn stored() -> zip::write::SimpleFileOptions {
    zip::write::SimpleFileOptions::default().compression_method(zip::CompressionMethod::Stored)
}

fn deflated() -> zip::write::SimpleFileOptions {
    zip::write::SimpleFileOptions::default().compression_method(zip::CompressionMethod::Deflated)
}

fn sample_bundle() -> Vec<u8> {
    let mut writer = zip::ZipWriter::new(std::io::Cursor::new(Vec::new()));
    writer.add_directory("node_modules/", stored()).unwrap();
    writer.start_file("server.js", deflated()).unwrap();
    writer.write_all(b"console.log('up');\n").unwrap();
    writer.start_file("node_modules/dep/index.js", stored()).unwrap();
    writer.write_all(b"module.exports = 1;").unwrap();
    writer.finish().unwrap().into_inner()
}

fn empty_bundle() -> Vec<u8> {
    zip::ZipWriter::new(std::io::Cursor::new(Vec::new())).finish().unwrap().into_inner()
}

fn single_file_bundle(name: &str, contents: &[u8]) -> Vec<u8> {
    let mut writer = zip::ZipWriter::new(std::io::Cursor::new(Vec::new()));
    writer.start_file(name, stored()).unwrap();
    writer.write_all(contents).unwrap();
    writer.finish().unwrap().into_inner()
}

fn done(path: &str) -> Reply {
    Reply::Done { path: path.to_string() }
}

fn failed(path: &str, cause: &str) -> Reply {
    Reply::Failed { path: path.to_string(), cause: cause.to_string() }
}

fn failure_text(request: Request) -> String {
    match request {
        Request::Fail(error) => error.message(),
        _ => panic!("expected the extraction to fail"),
    }
}

/// Runs an extraction up to the point where the bundle's bytes are asked for.
fn up_to_loading(extraction: &mut Extraction, old_tree: bool) {
    assert!(matches!(extraction.advance(Reply::Start), Request::ProbeBundle));
    assert!(matches!(
        extraction.advance(Reply::Exists { path: "res/server-bundle.zip".to_string() }),
        Request::ProbeServerDir
    ));
    if old_tree {
        assert!(matches!(
            extraction.advance(Reply::Exists { path: "data/server".to_string() }),
            Request::RemoveServerDir
        ));
        assert!(matches!(extraction.advance(done("data/server")), Request::CreateServerDir));
    } else {
        assert!(matches!(
            extraction.advance(Reply::Missing { path: "data/server".to_string() }),
            Request::CreateServerDir
        ));
    }
    assert!(matches!(extraction.advance(done("data/server")), Request::LoadBundle));
}

#[test]
fn unpacks_entries_in_order_then_writes_marker() {
    let mut extraction = Extraction::new("1.4.2".to_string());
    up_to_loading(&mut extraction, false);
    match extraction.advance(Reply::Loaded { bytes: sample_bundle() }) {
        Request::CreateDir { name } => assert_eq!(name, "node_modules/"),
        _ => panic!("expected the directory entry"),
    }
    match extraction.advance(done("data/server/node_modules/")) {
        Request::WriteFile { name, contents } => {
            assert_eq!(name, "server.js");
            assert_eq!(contents, b"console.log('up');\n".to_vec());
        }
        _ => panic!("expected the first file entry"),
    }
    match extraction.advance(done("data/server/server.js")) {
        Request::WriteFile { name, contents } => {
            assert_eq!(name, "node_modules/dep/index.js");
            assert_eq!(contents, b"module.exports = 1;".to_vec());
        }
        _ => panic!("expected the second file entry"),
    }
    match extraction.advance(done("data/server/node_modules/dep/index.js")) {
        Request::WriteMarker { version } => assert_eq!(version, "1.4.2"),
        _ => panic!("expected the marker"),
    }
    assert!(!extraction.is_over());
    assert!(matches!(extraction.advance(done("data/.version")), Request::Succeed));
    assert!(extraction.is_over());
    assert!(extraction.has_succeeded());
    assert!(matches!(extraction.advance(done("data/.version")), Request::Nothing));
}

#[test]
fn old_server_tree_is_removed_before_anything_is_written() {
    let mut extraction = Extraction::new("2.0.0".to_string());
    let mut requests: Vec<&'static str> = Vec::new();
    let mut reply = Reply::Start;
    loop {
        let request = extraction.advance(reply);
        reply = match request {
            Request::ProbeBundle => {
                requests.push("probe bundle");
                Reply::Exists { path: "res/server-bundle.zip".to_string() }
            }
            Request::ProbeServerDir => {
                requests.push("probe server dir");
                Reply::Exists { path: "data/server".to_string() }
            }
            Request::RemoveServerDir => {
                requests.push("remove");
                done("data/server")
            }
            Request::CreateServerDir => {
                requests.push("create server dir");
                done("data/server")
            }
            Request::LoadBundle => {
                requests.push("load");
                Reply::Loaded { bytes: sample_bundle() }
            }
            Request::CreateDir { .. } => {
                requests.push("dir");
                done("d")
            }
            Request::WriteFile { .. } => {
                requests.push("file");
                done("f")
            }
            Request::WriteMarker { .. } => {
                requests.push("marker");
                done("m")
            }
            Request::Succeed => break,
            Request::Fail(_) | Request::Nothing => panic!("the extraction should succeed"),
        };
    }
    assert_eq!(
        requests,
        vec![
            "probe bundle",
            "probe server dir",
            "remove",
            "create server dir",
            "load",
            "dir",
            "file",
            "file",
            "marker"
        ]
    );
}

#[test]
fn empty_archive_goes_straight_to_the_marker() {
    let bytes = empty_bundle();
    let mut extraction = Extraction::new("0.9.0".to_string());
    up_to_loading(&mut extraction, false);
    match extraction.advance(Reply::Loaded { bytes }) {
        Request::WriteMarker { version } => assert_eq!(version, "0.9.0"),
        _ => panic!("expected the marker"),
    }
}

#[test]
fn marker_failure_does_not_fail_the_extraction() {
    let bytes = empty_bundle();
    let mut extraction = Extraction::new("0.9.0".to_string());
    up_to_loading(&mut extraction, false);
    assert!(matches!(extraction.advance(Reply::Loaded { bytes }), Request::WriteMarker { .. }));
    assert!(matches!(
        extraction.advance(failed("data/.version", "read-only file system")),
        Request::Succeed
    ));
    assert!(extraction.has_succeeded());
}

#[test]
fn entry_that_leaves_the_server_directory_is_rejected() {
    let mut writer = zip::ZipWriter::new(std::io::Cursor::new(Vec::new()));
    writer.start_file("ok.txt", stored()).unwrap();
    writer.write_all(b"fine").unwrap();
    writer.start_file("../escape.txt", stored()).unwrap();
    writer.write_all(b"bad").unwrap();
    writer.start_file("later.txt", stored()).unwrap();
    writer.write_all(b"never").unwrap();
    let bytes = writer.finish().unwrap().into_inner();

    let mut extraction = Extraction::new("1.0.0".to_string());
    up_to_loading(&mut extraction, true);
    assert!(matches!(extraction.advance(Reply::Loaded { bytes }), Request::WriteFile { .. }));
    match extraction.advance(done("data/server/ok.txt")) {
        Request::Fail(error) => {
            assert!(matches!(error, ExtractionError::InvalidEntryName));
            assert_eq!(error.message(), "Invalid zip entry name");
        }
        _ => panic!("expected the rejection"),
    }
    assert!(extraction.is_over());
    assert!(!extraction.has_succeeded());
    assert!(matches!(extraction.advance(done("data/server/ok.txt")), Request::Nothing));
}

#[test]
fn absolute_entry_name_is_rejected() {
    let bytes = single_file_bundle("/etc/passwd", b"root");
    let mut extraction = Extraction::new("1.0.0".to_string());
    up_to_loading(&mut extraction, false);
    assert_eq!(failure_text(extraction.advance(Reply::Loaded { bytes })), "Invalid zip entry name");
}

#[test]
fn name_that_returns_into_the_directory_is_accepted() {
    let bytes = single_file_bundle("lib/../server.js", b"x");
    let mut extraction = Extraction::new("1.0.0".to_string());
    up_to_loading(&mut extraction, false);
    match extraction.advance(Reply::Loaded { bytes }) {
        Request::WriteFile { name, contents } => {
            assert_eq!(name, "lib/../server.js");
            assert_eq!(contents, b"x".to_vec());
        }
        _ => panic!("expected the file entry"),
    }
}

#[test]
fn missing_bundle_fails_with_its_path() {
    let mut extraction = Extraction::new("1.0.0".to_string());
    assert!(matches!(extraction.advance(Reply::Start), Request::ProbeBundle));
    let request =
        extraction.advance(Reply::Missing { path: "C:\\app\\server-bundle.zip".to_string() });
    assert_eq!(failure_text(request), "Server bundle not found: C:\\app\\server-bundle.zip");
    assert!(extraction.is_over());
}

#[test]
fn failure_to_remove_the_old_tree_ends_the_extraction() {
    let mut extraction = Extraction::new("1.0.0".to_string());
    extraction.advance(Reply::Start);
    extraction.advance(Reply::Exists { path: "b".to_string() });
    assert!(matches!(
        extraction.advance(Reply::Exists { path: "data/server".to_string() }),
        Request::RemoveServerDir
    ));
    let request = extraction.advance(failed("data/server", "access denied"));
    assert_eq!(failure_text(request), "Failed to clean old server: access denied");
    assert!(matches!(extraction.advance(done("data/server")), Request::Nothing));
}

#[test]
fn failure_to_create_the_server_directory_ends_the_extraction() {
    let mut extraction = Extraction::new("1.0.0".to_string());
    extraction.advance(Reply::Start);
    extraction.advance(Reply::Exists { path: "b".to_string() });
    assert!(matches!(
        extraction.advance(Reply::Missing { path: "data/server".to_string() }),
        Request::CreateServerDir
    ));
    let request = extraction.advance(failed("data/server", "disk full"));
    assert_eq!(failure_text(request), "Failed to create server dir: disk full");
}

#[test]
fn failure_to_load_the_bundle_ends_the_extraction() {
    let mut extraction = Extraction::new("1.0.0".to_string());
    up_to_loading(&mut extraction, false);
    let request = extraction.advance(failed("res/server-bundle.zip", "permission denied"));
    assert_eq!(failure_text(request), "Failed to open zip: permission denied");
}

#[test]
fn bytes_that_are_no_archive_fail_as_unreadable() {
    let mut extraction = Extraction::new("1.0.0".to_string());
    up_to_loading(&mut extraction, false);
    match extraction.advance(Reply::Loaded { bytes: b"this is not an archive".to_vec() }) {
        Request::Fail(error) => {
            assert!(matches!(error, ExtractionError::ArchiveUnreadable { .. }));
            assert!(error.message().starts_with("Failed to read zip: "));
        }
        _ => panic!("expected the extraction to fail"),
    }
    assert!(extraction.is_over());
}

#[test]
fn failure_to_create_an_entry_directory_ends_the_extraction() {
    let mut extraction = Extraction::new("1.0.0".to_string());
    up_to_loading(&mut extraction, false);
    assert!(matches!(
        extraction.advance(Reply::Loaded { bytes: sample_bundle() }),
        Request::CreateDir { .. }
    ));
    let request = extraction.advance(failed("data/server/node_modules/", "disk full"));
    assert_eq!(failure_text(request), "Failed to create dir data/server/node_modules/: disk full");
}

#[test]
fn file_entry_failures_are_told_apart() {
    let bytes = single_file_bundle("a/b.txt", b"b");

    let mut extraction = Extraction::new("1.0.0".to_string());
    up_to_loading(&mut extraction, false);
    extraction.advance(Reply::Loaded { bytes: bytes.clone() });
    let request = extraction.advance(Reply::ParentFailed {
        path: "data/server/a".to_string(),
        cause: "not a directory".to_string(),
    });
    assert_eq!(failure_text(request), "Failed to create parent dir data/server/a: not a directory");

    let mut extraction = Extraction::new("1.0.0".to_string());
    up_to_loading(&mut extraction, false);
    extraction.advance(Reply::Loaded { bytes: bytes.clone() });
    let request = extraction.advance(Reply::CreateFailed {
        path: "data/server/a/b.txt".to_string(),
        cause: "access denied".to_string(),
    });
    assert_eq!(failure_text(request), "Failed to create file data/server/a/b.txt: access denied");

    let mut extraction = Extraction::new("1.0.0".to_string());
    up_to_loading(&mut extraction, false);
    extraction.advance(Reply::Loaded { bytes });
    let request = extraction.advance(failed("data/server/a/b.txt", "disk full"));
    assert_eq!(failure_text(request), "Failed to write data/server/a/b.txt: disk full");
}

#[test]
fn damaged_entry_content_fails_the_write() {
    let payload = b"0123456789abcdefghijklmnopqrstuvwxyz";
    let mut bytes = single_file_bundle("data.bin", payload);
    let at = bytes.windows(payload.len()).position(|window| window == payload).unwrap();
    bytes[at] = b'X';

    let mut extraction = Extraction::new("1.0.0".to_string());
    up_to_loading(&mut extraction, false);
    match extraction.advance(Reply::Loaded { bytes }) {
        Request::WriteFile { name, .. } => assert_eq!(name, "data.bin"),
        _ => panic!("expected the file entry"),
    }
    match extraction.advance(done("data/server/data.bin")) {
        Request::Fail(error) => {
            assert!(matches!(error, ExtractionError::WriteFailed { .. }));
            assert!(error.message().starts_with("Failed to write data/server/data.bin: "));
        }
        _ => panic!("expected the write to fail"),
    }
    assert!(!extraction.has_succeeded());
}

#[test]
fn encrypted_entry_is_unreadable() {
    let mut writer = zip::ZipWriter::new(std::io::Cursor::new(Vec::new()));
    writer.start_file("plain.txt", stored()).unwrap();
    writer.write_all(b"plain").unwrap();
    writer.start_file("secret.txt", stored().with_deprecated_encryption(b"password")).unwrap();
    writer.write_all(b"secret").unwrap();
    let bytes = writer.finish().unwrap().into_inner();

    let mut extraction = Extraction::new("1.0.0".to_string());
    up_to_loading(&mut extraction, false);
    assert!(matches!(extraction.advance(Reply::Loaded { bytes }), Request::WriteFile { .. }));
    match extraction.advance(done("data/server/plain.txt")) {
        Request::Fail(error) => {
            assert!(matches!(error, ExtractionError::EntryUnreadable { index: 1, .. }));
            assert!(error.message().starts_with("Failed to read entry 1: "));
        }
        _ => panic!("expected the entry to be unreadable"),
    }
}

#[test]
fn reply_out_of_turn_changes_nothing() {
    let mut extraction = Extraction::new("1.0.0".to_string());
    assert!(matches!(extraction.advance(done("x")), Request::Nothing));
    assert!(matches!(extraction.advance(Reply::Start), Request::ProbeBundle));
    assert!(matches!(extraction.advance(Reply::Start), Request::Nothing));
    assert!(matches!(
        extraction.advance(Reply::Loaded { bytes: sample_bundle() }),
        Request::Nothing
    ));
    assert!(matches!(
        extraction.advance(Reply::Exists { path: "b".to_string() }),
        Request::ProbeServerDir
    ));
    assert!(!extraction.is_over());
}

#[test]
fn bundle_that_cannot_be_read_fails_as_unreadable() {
    let mut extraction = Extraction::new("1.0.0".to_string());
    up_to_loading(&mut extraction, false);
    let request = extraction.advance(Reply::ReadFailed {
        path: "res/server-bundle.zip".to_string(),
        cause: "device not ready".to_string(),
    });
    assert_eq!(failure_text(request), "Failed to read zip: device not ready");
    assert!(extraction.is_over());
}

/// Runs a whole extraction of `bytes` and lists what it asks to create and
/// write, as lines of text.
fn requests_for(bytes: Vec<u8>, old_tree: bool) -> Vec<String> {
    let mut extraction = Extraction::new("1.0.0".to_string());
    up_to_loading(&mut extraction, old_tree);
    let mut asked: Vec<String> = Vec::new();
    let mut reply = Reply::Loaded { bytes };
    loop {
        reply = match extraction.advance(reply) {
            Request::CreateDir { name } => {
                asked.push(format!("dir {}", name));
                done("d")
            }
            Request::WriteFile { name, contents } => {
                asked.push(format!("file {} = {}", name, String::from_utf8_lossy(&contents)));
                done("f")
            }
            Request::WriteMarker { version } => {
                asked.push(format!("marker {}", version));
                done("m")
            }
            Request::Succeed => return asked,
            _ => panic!("the extraction should succeed"),
        };
    }
}

#[test]
fn extraction_over_an_old_tree_writes_the_new_entry_alone() {
    let asked = requests_for(single_file_bundle("server.js", b"new"), true);
    assert_eq!(asked, vec!["file server.js = new".to_string(), "marker 1.0.0".to_string()]);
}

#[test]
fn every_entry_is_asked_for_once_with_its_name_and_content() {
    let asked = requests_for(sample_bundle(), false);
    assert_eq!(
        asked,
        vec![
            "dir node_modules/".to_string(),
            "file server.js = console.log('up');\n".to_string(),
            "file node_modules/dep/index.js = module.exports = 1;".to_string(),
            "marker 1.0.0".to_string(),
        ]
    );
}

#[test]
fn second_extraction_of_the_same_bundle_asks_the_same() {
    assert_eq!(requests_for(sample_bundle(), false), requests_for(sample_bundle(), true));
}

#[test]
fn directory_is_told_by_the_separator_at_the_end_of_its_name() {
    let mut writer = zip::ZipWriter::new(std::io::Cursor::new(Vec::new()));
    writer.add_directory("a", stored()).unwrap();
    writer.start_file("b", stored()).unwrap();
    let asked = requests_for(writer.finish().unwrap().into_inner(), false);
    assert_eq!(
        asked,
        vec!["dir a/".to_string(), "file b = ".to_string(), "marker 1.0.0".to_string()]
    );
}

#[test]
fn entry_request_follows_the_kind_of_the_entry() {
    let directory = EntryKind::Directory { name: "lib/".to_string() };
    assert!(matches!(
        entry_request(directory, Vec::new()),
        Request::CreateDir { name } if name == "lib/"
    ));
    let file = EntryKind::File { name: "lib/a.js".to_string() };
    assert!(matches!(
        entry_request(file, b"a".to_vec()),
        Request::WriteFile { name, contents } if name == "lib/a.js" && contents == b"a".to_vec()
    ));
    let rejected = EntryKind::Rejected(ExtractionError::InvalidEntryName);
    assert!(matches!(
        entry_request(rejected, b"ignored".to_vec()),
        Request::Fail(ExtractionError::InvalidEntryName)
    ));
}
