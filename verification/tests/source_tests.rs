use recipe_build::error::SourceError;
use recipe_build::source::dest_dir;
use recipe_build::source::fetch_request;
use recipe_build::source::is_archive_name;
use recipe_build::source::source_ops;
use recipe_build::source::FetchOp;
use recipe_build::source::FetchRequest;
use recipe_build::source::FetchedArtifact;
use recipe_build::source::GitSrc;
use recipe_build::source::PathSrc;
use recipe_build::source::Source;
use recipe_build::source::UrlSrc;

fn git_source(folder: Option<&str>, patches: &[&str]) -> Source {
    Source::Git(GitSrc {
        url: String::from("https://example.com/repo.git"),
        rev: String::from("main"),
        folder: folder.map(String::from),
        patches: patches.iter().map(|p| String::from(*p)).collect(),
    })
}

fn url_source(file_name: Option<&str>, patches: &[&str]) -> UrlSrc {
    UrlSrc {
        urls: vec![String::from("https://example.com/pkg-1.0.tar.gz")],
        checksums: vec![String::from("sha256:0000")],
        file_name: file_name.map(String::from),
        folder: None,
        patches: patches.iter().map(|p| String::from(*p)).collect(),
    }
}

#[test]
fn archive_names_are_recognized() {
    assert!(is_archive_name("pkg.tar"));
    assert!(is_archive_name("pkg.tar.gz"));
    assert!(is_archive_name("pkg.tar.xz"));
    assert!(is_archive_name("pkg.tar.bz2"));
    assert!(is_archive_name("pkg.zip"));
    assert!(!is_archive_name("pkg.txt"));
    assert!(!is_archive_name(""));
}

#[test]
fn dest_dir_honors_the_subfolder() {
    assert_eq!(dest_dir("/work", &Some(String::from("sub"))), "/work/sub");
    assert_eq!(dest_dir("/work", &None), "/work");
}

#[test]
fn fetch_request_dispatches_on_the_variant() {
    let git = git_source(None, &[]);
    match fetch_request(&git, "/cache/src_cache", "/recipe") {
        FetchRequest::GitFetch { url, rev, cache_dir } => {
            assert_eq!(url, "https://example.com/repo.git");
            assert_eq!(rev, "main");
            assert_eq!(cache_dir, "/cache/src_cache");
        },
        other => panic!("wrong request: {:?}", other),
    }

    let path = Source::Path(PathSrc {
        path: String::from("patches/local"),
        use_gitignore: true,
        file_name: None,
        folder: None,
        patches: vec![],
    });
    match fetch_request(&path, "/cache/src_cache", "/recipe") {
        FetchRequest::ResolveLocal { path } => assert_eq!(path, "/recipe/patches/local"),
        other => panic!("wrong request: {:?}", other),
    }

    let url = Source::Url(url_source(None, &[]));
    match fetch_request(&url, "/cache/src_cache", "/recipe") {
        FetchRequest::UrlFetch { urls, checksums, cache_dir } => {
            assert_eq!(urls, vec![String::from("https://example.com/pkg-1.0.tar.gz")]);
            assert_eq!(checksums, vec![String::from("sha256:0000")]);
            assert_eq!(cache_dir, "/cache/src_cache");
        },
        other => panic!("wrong request: {:?}", other),
    }
}

#[test]
fn git_source_copies_without_ignore_rules() {
    let src = git_source(Some("dep"), &[]);
    let art = FetchedArtifact::GitTree { tree: String::from("/cache/src_cache/repo") };
    let ops = source_ops(&src, &art, "/work", "/recipe").unwrap();
    assert_eq!(
        ops,
        vec![FetchOp::CopyTree {
            from: String::from("/cache/src_cache/repo"),
            dest: String::from("/work/dep"),
            use_gitignore: false,
        }]
    );
}

#[test]
fn patches_come_last_and_only_when_declared() {
    let src = git_source(None, &["fix.patch", "more.patch"]);
    let art = FetchedArtifact::GitTree { tree: String::from("/cache/src_cache/repo") };
    let ops = source_ops(&src, &art, "/work", "/recipe").unwrap();
    assert_eq!(ops.len(), 2);
    assert!(matches!(ops[0], FetchOp::CopyTree { .. }));
    assert_eq!(
        ops[1],
        FetchOp::ApplyPatches {
            patches: vec![String::from("fix.patch"), String::from("more.patch")],
            work_dir: String::from("/work"),
            recipe_dir: String::from("/recipe"),
        }
    );
}

#[test]
fn archive_download_is_extracted() {
    let src = Source::Url(url_source(None, &[]));
    let art = FetchedArtifact::DownloadedFile {
        file: String::from("/cache/src_cache/pkg-1.0.tar.gz"),
    };
    let ops = source_ops(&src, &art, "/work", "/recipe").unwrap();
    assert_eq!(
        ops,
        vec![
            FetchOp::CreateDir { dest: String::from("/work") },
            FetchOp::ExtractArchive {
                archive: String::from("/cache/src_cache/pkg-1.0.tar.gz"),
                dest: String::from("/work"),
            },
        ]
    );
}

#[test]
fn raw_download_is_copied_under_the_explicit_name() {
    let src = Source::Url(url_source(Some("renamed.txt"), &[]));
    let art = FetchedArtifact::DownloadedFile { file: String::from("/cache/src_cache/blob.txt") };
    let ops = source_ops(&src, &art, "/work", "/recipe").unwrap();
    assert_eq!(
        ops,
        vec![
            FetchOp::CreateDir { dest: String::from("/work") },
            FetchOp::CopyFile {
                from: String::from("/cache/src_cache/blob.txt"),
                to: String::from("/work/renamed.txt"),
            },
        ]
    );
}

#[test]
fn raw_download_falls_back_to_the_derived_name() {
    let src = Source::Url(url_source(None, &[]));
    let art = FetchedArtifact::DownloadedFile { file: String::from("/cache/src_cache/blob.txt") };
    let ops = source_ops(&src, &art, "/work", "/recipe").unwrap();
    assert_eq!(
        ops[1],
        FetchOp::CopyFile {
            from: String::from("/cache/src_cache/blob.txt"),
            to: String::from("/work/blob.txt"),
        }
    );
}

#[test]
fn raw_download_without_any_name_is_an_error() {
    let src = Source::Url(url_source(None, &[]));
    let art = FetchedArtifact::DownloadedFile { file: String::from("/cache/src_cache/dir/") };
    let err = source_ops(&src, &art, "/work", "/recipe").unwrap_err();
    assert_eq!(
        err,
        SourceError::UnknownError(String::from(
            "Failed to get filename for `/cache/src_cache/dir/`"
        ))
    );
}

#[test]
fn missing_local_path_is_file_not_found() {
    let src = Source::Path(PathSrc {
        path: String::from("absent"),
        use_gitignore: false,
        file_name: None,
        folder: None,
        patches: vec![],
    });
    let art = FetchedArtifact::LocalPath {
        canonical: String::from("/recipe/absent"),
        exists: false,
        is_dir: false,
    };
    let err = source_ops(&src, &art, "/work", "/recipe").unwrap_err();
    assert_eq!(err, SourceError::FileNotFound(String::from("/recipe/absent")));
}

#[test]
fn local_directory_is_copied_with_the_ignore_flag() {
    let src = Source::Path(PathSrc {
        path: String::from("vendored"),
        use_gitignore: true,
        file_name: None,
        folder: Some(String::from("third_party")),
        patches: vec![],
    });
    let art = FetchedArtifact::LocalPath {
        canonical: String::from("/recipe/vendored"),
        exists: true,
        is_dir: true,
    };
    let ops = source_ops(&src, &art, "/work", "/recipe").unwrap();
    assert_eq!(
        ops,
        vec![
            FetchOp::CreateDir { dest: String::from("/work/third_party") },
            FetchOp::CopyTree {
                from: String::from("/recipe/vendored"),
                dest: String::from("/work/third_party"),
                use_gitignore: true,
            },
        ]
    );
}

#[test]
fn local_file_is_copied_under_its_own_base_name() {
    let src = Source::Path(PathSrc {
        path: String::from("data/input.csv"),
        use_gitignore: false,
        file_name: None,
        folder: None,
        patches: vec![String::from("fix.patch")],
    });
    let art = FetchedArtifact::LocalPath {
        canonical: String::from("/recipe/data/input.csv"),
        exists: true,
        is_dir: false,
    };
    let ops = source_ops(&src, &art, "/work", "/recipe").unwrap();
    assert_eq!(ops.len(), 3);
    assert_eq!(ops[0], FetchOp::CreateDir { dest: String::from("/work") });
    assert_eq!(
        ops[1],
        FetchOp::CopyFile {
            from: String::from("/recipe/data/input.csv"),
            to: String::from("/work/input.csv"),
        }
    );
    assert!(matches!(ops[2], FetchOp::ApplyPatches { .. }));
}

#[test]
fn materialization_with_empty_patch_list_adds_no_patch_step() {
    let src = git_source(None, &[]);
    let art = FetchedArtifact::GitTree { tree: String::from("/cache/src_cache/repo") };
    let ops = source_ops(&src, &art, "/work", "/recipe").unwrap();
    assert!(ops.iter().all(|op| !matches!(op, FetchOp::ApplyPatches { .. })));
    assert_eq!(ops.len(), 1);
}
