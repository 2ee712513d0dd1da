use release_packer::failure::{Captured, Failure};
use release_packer::records::{ArchiveRecord, Records};
use release_packer::report::{abort_line_of, lines_of_records, report};

fn record(archive: &str, digest: &str) -> ArchiveRecord {
    ArchiveRecord { archive: archive.to_string(), digest: digest.to_string() }
}

#[test]
fn new_records_are_empty() {
    let records = Records::new();
    assert_eq!(records.len(), 0);
    assert_eq!(records.find("gh-tmp/a.tar.gz"), None);
}

#[test]
fn records_keep_the_order_of_insertion() {
    let mut records = Records::new();
    records.insert("b".to_string(), "2".to_string());
    records.insert("a".to_string(), "1".to_string());
    records.insert("c".to_string(), "3".to_string());
    assert_eq!(records.len(), 3);
    assert_eq!(*records.get(0), record("b", "2"));
    assert_eq!(*records.get(1), record("a", "1"));
    assert_eq!(*records.get(2), record("c", "3"));
    assert_eq!(records.find("a"), Some(1));
    assert_eq!(records.find("c"), Some(2));
    assert_eq!(records.find("d"), None);
}

#[test]
fn recording_an_archive_again_replaces_its_digest() {
    let mut records = Records::new();
    records.insert("a".to_string(), "1".to_string());
    records.insert("b".to_string(), "2".to_string());
    records.insert("a".to_string(), "9".to_string());
    assert_eq!(records.len(), 2);
    assert_eq!(*records.get(0), record("a", "9"));
    assert_eq!(*records.get(1), record("b", "2"));
}

#[test]
fn report_of_records_is_two_lines_each() {
    let mut records = Records::new();
    records.insert("gh-tmp/ocp-0.1.0-a.tar.gz".to_string(), "00ff".to_string());
    records.insert("gh-tmp/ocp-0.1.0-b.tar.gz".to_string(), "abcd".to_string());
    let expected = vec![
        "url gh-tmp/ocp-0.1.0-a.tar.gz".to_string(),
        "sha256 00ff".to_string(),
        "url gh-tmp/ocp-0.1.0-b.tar.gz".to_string(),
        "sha256 abcd".to_string(),
    ];
    assert_eq!(lines_of_records(&records), expected);
    assert_eq!(report(&None, &records), expected);
}

#[test]
fn report_of_no_records_is_empty() {
    assert_eq!(report(&None, &Records::new()), Vec::<String>::new());
}

#[test]
fn report_of_a_failure_is_one_line() {
    let mut records = Records::new();
    records.insert("a".to_string(), "1".to_string());
    let failure = Failure::Io { message: "No such file or directory (os error 2)".to_string() };
    assert_eq!(
        report(&Some(failure), &records),
        vec!["Aborting: Error, No such file or directory (os error 2)".to_string()]
    );
}

#[test]
fn failure_messages() {
    let output = Captured { stdout: b"out".to_vec(), stderr: b"err".to_vec() };
    assert_eq!(
        Failure::MissingBinaryName.message(),
        "Binary Name is a compulsory positional arg"
    );
    assert_eq!(Failure::CleanFailed(output.clone()).message(), "cargo clean failed");
    assert_eq!(
        Failure::BuildFailed { target: "wasm32-wasi".to_string(), output: output.clone() }
            .message(),
        "cargo build --release --target=wasm32-wasi failed"
    );
    assert_eq!(Failure::MetadataFailed(output.clone()).message(), "cargo pkgid failed");
    assert_eq!(Failure::NotText.message(), "cargo pkgid contained non-utf8 text");
    assert_eq!(
        Failure::VersionNotFound { input: "pkg".to_string() }.message(),
        "Version not found in pkg"
    );
    assert_eq!(
        Failure::RemoveStagingFailed(output.clone()).message(),
        "rm -r -f gh-tmp failed"
    );
    assert_eq!(Failure::MakeStagingFailed(output.clone()).message(), "mkdir gh-tmp failed");
    assert_eq!(
        Failure::UploadFailed { archive: "gh-tmp/a.tar.gz".to_string(), output: output.clone() }
            .message(),
        "gh release upload gh-tmp/a.tar.gz failed"
    );
    assert_eq!(Failure::Io { message: "denied".to_string() }.message(), "denied");
    assert_eq!(Failure::UnexpectedEvent.message(), "unexpected event");
}

#[test]
fn failures_of_commands_carry_their_output() {
    let output = Captured { stdout: b"out".to_vec(), stderr: b"err".to_vec() };
    assert_eq!(Failure::CleanFailed(output.clone()).output(), Some(&output));
    assert_eq!(
        Failure::BuildFailed { target: "t".to_string(), output: output.clone() }.output(),
        Some(&output)
    );
    assert_eq!(Failure::MetadataFailed(output.clone()).output(), Some(&output));
    assert_eq!(Failure::RemoveStagingFailed(output.clone()).output(), Some(&output));
    assert_eq!(Failure::MakeStagingFailed(output.clone()).output(), Some(&output));
    assert_eq!(
        Failure::UploadFailed { archive: "a".to_string(), output: output.clone() }.output(),
        Some(&output)
    );
    assert_eq!(Failure::MissingBinaryName.output(), None);
    assert_eq!(Failure::NotText.output(), None);
    assert_eq!(Failure::VersionNotFound { input: "x".to_string() }.output(), None);
    assert_eq!(Failure::Io { message: "x".to_string() }.output(), None);
    assert_eq!(Failure::UnexpectedEvent.output(), None);
}

#[test]
fn abort_line_tells_the_reason() {
    assert_eq!(
        abort_line_of(&Failure::MissingBinaryName),
        "Aborting: Error, Binary Name is a compulsory positional arg"
    );
    assert_eq!(
        abort_line_of(&Failure::VersionNotFound { input: "pkg".to_string() }),
        "Aborting: Error, Version not found in pkg"
    );
}
