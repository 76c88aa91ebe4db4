use recipe_build::error::SourceError;
use recipe_build::extract::extraction_outcome;
use recipe_build::extract::tar_args;

#[test]
fn every_error_kind_renders_its_diagnostic_line() {
    let m = String::from("m");
    assert_eq!(SourceError::Io(m.clone()).message(), "IO Error: m");
    assert_eq!(
        SourceError::Url(m.clone()).message(),
        "Failed to download source from url: m"
    );
    assert_eq!(SourceError::WalkDir(m.clone()).message(), "WalkDir Error: m");
    assert_eq!(
        SourceError::FileSystemError(m.clone()).message(),
        "FileSystem error: 'm'"
    );
    assert_eq!(
        SourceError::StripPrefixError(m.clone()).message(),
        "StripPrefixError Error: m"
    );
    assert_eq!(
        SourceError::ValidationFailed.message(),
        "Download could not be validated with checksum!"
    );
    assert_eq!(
        SourceError::FileNotFound(String::from("/x")).message(),
        "File not found: /x"
    );
    assert_eq!(
        SourceError::PatchNotFound.message(),
        "Could not find `patch` executable"
    );
    assert_eq!(SourceError::TarNotFound.message(), "Could not find `tar` executable");
    assert_eq!(
        SourceError::PatchFailed(m.clone()).message(),
        "Failed to apply patch: m"
    );
    assert_eq!(
        SourceError::ExtractionError(m.clone()).message(),
        "Failed to extract archive: m"
    );
    assert_eq!(
        SourceError::GitError(m.clone()).message(),
        "Failed to run git command: m"
    );
    assert_eq!(
        SourceError::GitErrorStr("clone failed").message(),
        "Failed to run git command: clone failed"
    );
    assert_eq!(SourceError::UnknownError(m.clone()).message(), "m");
    assert_eq!(SourceError::UnknownErrorStr("odd").message(), "odd");
    assert_eq!(SourceError::IgnoreError(m.clone()).message(), "Could not walk dir");
    assert_eq!(SourceError::Glob(m.clone()).message(), "Failed to parse glob pattern");
    assert_eq!(
        SourceError::NoChecksum(String::from("https://x")).message(),
        "No checksum found for url: https://x"
    );
}

#[test]
fn tar_is_asked_to_strip_one_component_and_keep_permissions() {
    assert_eq!(
        tar_args("/cache/pkg.tar.gz", "/work/dest"),
        vec![
            String::from("-xf"),
            String::from("/cache/pkg.tar.gz"),
            String::from("--preserve-permissions"),
            String::from("--strip-components=1"),
            String::from("-C"),
            String::from("/work/dest"),
        ]
    );
}

#[test]
fn extraction_failure_carries_the_captured_output() {
    assert!(extraction_outcome(true, "/a.tar", "", "").is_ok());
    let err = extraction_outcome(false, "/a.tar", "out", "err").unwrap_err();
    assert_eq!(
        err,
        SourceError::ExtractionError(String::from(
            "Failed to extract archive: /a.tar.\nStdout: out\nStderr: err"
        ))
    );
}
