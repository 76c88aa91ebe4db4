//! Source acquisition: the declarative source descriptions, the outside
//! operations each one asks for, and the order those operations must run
//! in.
//!
//! A recipe declares an ordered list of sources.  Each source is fetched
//! (a git checkout, a download, or a local path), placed into the work
//! directory — optionally under a named subfolder — and its patches are
//! applied immediately afterwards, before the next source is touched.
//! The functions here decide every step of that loop from plain values;
//! the fetching, copying and patching themselves happen outside and
//! report back.

use vstd::prelude::*;

use crate::error::SourceError;
use crate::error::SourceErrorV;
use crate::extract::has_separator;
use crate::extract::strip_set;
use crate::text::base_name_spec;
use crate::text::lemma_base_name_join;
use crate::text::lemma_base_name_no_separator;
use crate::text::ends_with_spec;
use crate::text::base_name;
use crate::text::clone_strings;
use crate::text::ends_with;
use crate::text::path_join;

verus! {

/// A source fetched from a git repository.
#[derive(Debug, Clone, PartialEq, Eq)]
pub struct GitSrc {
    /// Remote repository URL.
    pub url: String,
    /// Revision selector (branch, tag, or commit).
    pub rev: String,
    /// Subfolder of the work directory to place the tree into.
    pub folder: Option<String>,
    /// Patch files to apply after placement, in order.
    pub patches: Vec<String>,
}

/// A source downloaded from one of several candidate URLs.
#[derive(Debug, Clone, PartialEq, Eq)]
pub struct UrlSrc {
    /// Candidate URLs, tried in order.
    pub urls: Vec<String>,
    /// Expected checksums for the download.
    pub checksums: Vec<String>,
    /// Explicit destination file name for a raw (non-archive) download.
    pub file_name: Option<String>,
    /// Subfolder of the work directory to place the content into.
    pub folder: Option<String>,
    /// Patch files to apply after placement, in order.
    pub patches: Vec<String>,
}

/// A source copied from a local path, relative to the recipe directory.
#[derive(Debug, Clone, PartialEq, Eq)]
pub struct PathSrc {
    /// The path, relative to the recipe directory.
    pub path: String,
    /// Whether ignore-file rules are honored when copying a directory.
    pub use_gitignore: bool,
    /// Explicit destination file name when the path is a single file.
    pub file_name: Option<String>,
    /// Subfolder of the work directory to place the content into.
    pub folder: Option<String>,
    /// Patch files to apply after placement, in order.
    pub patches: Vec<String>,
}

/// A declared source: one of the three origins.
#[derive(Debug, Clone, PartialEq, Eq)]
pub enum Source {
    /// Fetch from a git repository.
    Git(GitSrc),
    /// Download from a URL.
    Url(UrlSrc),
    /// Copy from a local path.
    Path(PathSrc),
}

/// Mathematical model of [`GitSrc`].
pub struct GitSrcV {
    /// Remote repository URL.
    pub url: Seq<char>,
    /// Revision selector.
    pub rev: Seq<char>,
    /// Destination subfolder, if any.
    pub folder: Option<Seq<char>>,
    /// Ordered patch list.
    pub patches: Seq<Seq<char>>,
}

/// Mathematical model of [`UrlSrc`].
pub struct UrlSrcV {
    /// Candidate URLs.
    pub urls: Seq<Seq<char>>,
    /// Expected checksums.
    pub checksums: Seq<Seq<char>>,
    /// Explicit destination file name, if any.
    pub file_name: Option<Seq<char>>,
    /// Destination subfolder, if any.
    pub folder: Option<Seq<char>>,
    /// Ordered patch list.
    pub patches: Seq<Seq<char>>,
}

/// Mathematical model of [`PathSrc`].
pub struct PathSrcV {
    /// The path, relative to the recipe directory.
    pub path: Seq<char>,
    /// Whether ignore-file rules are honored for a directory copy.
    pub use_gitignore: bool,
    /// Explicit destination file name, if any.
    pub file_name: Option<Seq<char>>,
    /// Destination subfolder, if any.
    pub folder: Option<Seq<char>>,
    /// Ordered patch list.
    pub patches: Seq<Seq<char>>,
}

/// Mathematical model of [`Source`].
pub enum SourceV {
    /// Fetch from a git repository.
    Git(GitSrcV),
    /// Download from a URL.
    Url(UrlSrcV),
    /// Copy from a local path.
    Path(PathSrcV),
}

impl View for GitSrc {
    type V = GitSrcV;

    open spec fn view(&self) -> GitSrcV {
        GitSrcV {
            url: self.url@,
            rev: self.rev@,
            folder: self.folder.deep_view(),
            patches: self.patches.deep_view(),
        }
    }
}

impl View for UrlSrc {
    type V = UrlSrcV;

    open spec fn view(&self) -> UrlSrcV {
        UrlSrcV {
            urls: self.urls.deep_view(),
            checksums: self.checksums.deep_view(),
            file_name: self.file_name.deep_view(),
            folder: self.folder.deep_view(),
            patches: self.patches.deep_view(),
        }
    }
}

impl View for PathSrc {
    type V = PathSrcV;

    open spec fn view(&self) -> PathSrcV {
        PathSrcV {
            path: self.path@,
            use_gitignore: self.use_gitignore,
            file_name: self.file_name.deep_view(),
            folder: self.folder.deep_view(),
            patches: self.patches.deep_view(),
        }
    }
}

impl View for Source {
    type V = SourceV;

    open spec fn view(&self) -> SourceV {
        match self {
            Source::Git(s) => SourceV::Git(s@),
            Source::Url(s) => SourceV::Url(s@),
            Source::Path(s) => SourceV::Path(s@),
        }
    }
}

impl DeepView for Source {
    type V = SourceV;

    open spec fn deep_view(&self) -> SourceV {
        self@
    }
}

impl SourceV {
    /// The destination subfolder this source declares, if any.
    pub open spec fn folder(&self) -> Option<Seq<char>> {
        match self {
            SourceV::Git(s) => s.folder,
            SourceV::Url(s) => s.folder,
            SourceV::Path(s) => s.folder,
        }
    }

    /// The ordered patch list this source declares.
    pub open spec fn patches(&self) -> Seq<Seq<char>> {
        match self {
            SourceV::Git(s) => s.patches,
            SourceV::Url(s) => s.patches,
            SourceV::Path(s) => s.patches,
        }
    }
}

/// The destination directory for a source: the work directory itself, or
/// its declared subfolder.
pub open spec fn dest_dir_spec(work_dir: Seq<char>, folder: Option<Seq<char>>) -> Seq<char> {
    match folder {
        Some(f) => work_dir + seq!['/'] + f,
        None => work_dir,
    }
}

/// Compute the destination directory for a source.
pub fn dest_dir(work_dir: &str, folder: &Option<String>) -> (r: String)
    ensures
        r@ == dest_dir_spec(work_dir@, folder.deep_view()),
{
    match folder {
        Some(f) => path_join(work_dir, f.as_str()),
        None => String::from_str(work_dir),
    }
}

/// True when a downloaded file's name marks it as an archive to extract:
/// it ends in one of the recognized archive extensions.
pub open spec fn is_archive_name_spec(name: Seq<char>) -> bool {
    ||| ends_with_spec(name, "tar"@)
    ||| ends_with_spec(name, "tar.gz"@)
    ||| ends_with_spec(name, "tar.xz"@)
    ||| ends_with_spec(name, "tar.bz2"@)
    ||| ends_with_spec(name, "zip"@)
}

/// Decide whether a downloaded file is an archive to extract.
pub fn is_archive_name(name: &str) -> (b: bool)
    ensures
        b == is_archive_name_spec(name@),
{
    if ends_with(name, "tar") {
        return true;
    }
    if ends_with(name, "tar.gz") {
        return true;
    }
    if ends_with(name, "tar.xz") {
        return true;
    }
    if ends_with(name, "tar.bz2") {
        return true;
    }
    ends_with(name, "zip")
}

/// The first outside step a source asks for: what to fetch or resolve.
#[derive(Debug, Clone, PartialEq, Eq)]
pub enum FetchRequest {
    /// Clone or update a repository in the cache and check out a revision.
    GitFetch {
        /// Remote repository URL.
        url: String,
        /// Revision selector.
        rev: String,
        /// The shared source cache directory.
        cache_dir: String,
    },
    /// Download from the candidate URLs into the cache, validating the
    /// result against the expected checksums.
    UrlFetch {
        /// Candidate URLs, tried in order.
        urls: Vec<String>,
        /// Expected checksums.
        checksums: Vec<String>,
        /// The shared source cache directory.
        cache_dir: String,
    },
    /// Canonicalize a local path and report whether it exists and whether
    /// it is a directory.
    ResolveLocal {
        /// The path to resolve, already joined to the recipe directory.
        path: String,
    },
}

/// Mathematical model of [`FetchRequest`].
pub enum FetchRequestV {
    /// Clone or update a repository in the cache.
    GitFetch {
        /// Remote repository URL.
        url: Seq<char>,
        /// Revision selector.
        rev: Seq<char>,
        /// The shared source cache directory.
        cache_dir: Seq<char>,
    },
    /// Download into the cache.
    UrlFetch {
        /// Candidate URLs.
        urls: Seq<Seq<char>>,
        /// Expected checksums.
        checksums: Seq<Seq<char>>,
        /// The shared source cache directory.
        cache_dir: Seq<char>,
    },
    /// Canonicalize a local path.
    ResolveLocal {
        /// The path to resolve.
        path: Seq<char>,
    },
}

impl View for FetchRequest {
    type V = FetchRequestV;

    open spec fn view(&self) -> FetchRequestV {
        match self {
            FetchRequest::GitFetch { url, rev, cache_dir } => FetchRequestV::GitFetch {
                url: url@,
                rev: rev@,
                cache_dir: cache_dir@,
            },
            FetchRequest::UrlFetch { urls, checksums, cache_dir } => FetchRequestV::UrlFetch {
                urls: urls.deep_view(),
                checksums: checksums.deep_view(),
                cache_dir: cache_dir@,
            },
            FetchRequest::ResolveLocal { path } => FetchRequestV::ResolveLocal { path: path@ },
        }
    }
}

/// The fetch step each source variant asks for: a git source is cloned
/// into the cache, a URL source is downloaded into the cache, and a path
/// source is resolved against the recipe directory.
pub open spec fn fetch_request_spec(
    src: SourceV,
    cache_src: Seq<char>,
    recipe_dir: Seq<char>,
) -> FetchRequestV {
    match src {
        SourceV::Git(g) => FetchRequestV::GitFetch { url: g.url, rev: g.rev, cache_dir: cache_src },
        SourceV::Url(u) => FetchRequestV::UrlFetch {
            urls: u.urls,
            checksums: u.checksums,
            cache_dir: cache_src,
        },
        SourceV::Path(p) => FetchRequestV::ResolveLocal {
            path: recipe_dir + seq!['/'] + p.path,
        },
    }
}

/// Decide the fetch step for a source.
pub fn fetch_request(src: &Source, cache_src: &str, recipe_dir: &str) -> (r: FetchRequest)
    ensures
        r@ == fetch_request_spec(src@, cache_src@, recipe_dir@),
{
    match src {
        Source::Git(g) => FetchRequest::GitFetch {
            url: g.url.clone(),
            rev: g.rev.clone(),
            cache_dir: String::from_str(cache_src),
        },
        Source::Url(u) => FetchRequest::UrlFetch {
            urls: clone_strings(&u.urls),
            checksums: clone_strings(&u.checksums),
            cache_dir: String::from_str(cache_src),
        },
        Source::Path(p) => FetchRequest::ResolveLocal {
            path: path_join(recipe_dir, p.path.as_str()),
        },
    }
}

/// What the outside fetch handed back for one source.
#[derive(Debug, Clone, PartialEq, Eq)]
pub enum FetchedArtifact {
    /// A checked-out git tree in the cache.
    GitTree {
        /// Path of the checked-out tree.
        tree: String,
    },
    /// A file downloaded into the cache, checksum already validated.
    DownloadedFile {
        /// Path of the downloaded file.
        file: String,
    },
    /// A resolved local path.
    LocalPath {
        /// The canonicalized path.
        canonical: String,
        /// Whether the path exists.
        exists: bool,
        /// Whether the path is a directory.
        is_dir: bool,
    },
}

/// Mathematical model of [`FetchedArtifact`].
pub enum FetchedArtifactV {
    /// A checked-out git tree in the cache.
    GitTree {
        /// Path of the checked-out tree.
        tree: Seq<char>,
    },
    /// A file downloaded into the cache.
    DownloadedFile {
        /// Path of the downloaded file.
        file: Seq<char>,
    },
    /// A resolved local path.
    LocalPath {
        /// The canonicalized path.
        canonical: Seq<char>,
        /// Whether the path exists.
        exists: bool,
        /// Whether the path is a directory.
        is_dir: bool,
    },
}

impl View for FetchedArtifact {
    type V = FetchedArtifactV;

    open spec fn view(&self) -> FetchedArtifactV {
        match self {
            FetchedArtifact::GitTree { tree } => FetchedArtifactV::GitTree { tree: tree@ },
            FetchedArtifact::DownloadedFile { file } => FetchedArtifactV::DownloadedFile {
                file: file@,
            },
            FetchedArtifact::LocalPath { canonical, exists, is_dir } => FetchedArtifactV::LocalPath {
                canonical: canonical@,
                exists: *exists,
                is_dir: *is_dir,
            },
        }
    }
}

/// True when the artifact is of the kind the source's fetch step reports.
pub open spec fn artifact_matches(src: SourceV, art: FetchedArtifactV) -> bool {
    match src {
        SourceV::Git(_) => art is GitTree,
        SourceV::Url(_) => art is DownloadedFile,
        SourceV::Path(_) => art is LocalPath,
    }
}

/// One outside operation the acquisition loop asks for after the fetch.
#[derive(Debug, Clone, PartialEq, Eq)]
pub enum FetchOp {
    /// Copy a directory tree into the destination.
    CopyTree {
        /// The tree to copy.
        from: String,
        /// The destination directory.
        dest: String,
        /// Whether ignore-file rules are honored during the copy.
        use_gitignore: bool,
    },
    /// Create the destination directory if it is absent, parents included.
    CreateDir {
        /// The directory to create.
        dest: String,
    },
    /// Extract an archive into the destination, stripping one leading
    /// path component and preserving permission bits.
    ExtractArchive {
        /// The archive to extract.
        archive: String,
        /// The destination directory.
        dest: String,
    },
    /// Copy one file to the given destination path.
    CopyFile {
        /// The file to copy.
        from: String,
        /// The full destination path.
        to: String,
    },
    /// Apply the patch files in order against the work directory,
    /// resolving them relative to the recipe directory.
    ApplyPatches {
        /// Patch files, in declaration order.
        patches: Vec<String>,
        /// The work directory the patches are applied in.
        work_dir: String,
        /// The directory the patch files are resolved against.
        recipe_dir: String,
    },
}

/// Mathematical model of [`FetchOp`].
pub enum FetchOpV {
    /// Copy a directory tree into the destination.
    CopyTree {
        /// The tree to copy.
        from: Seq<char>,
        /// The destination directory.
        dest: Seq<char>,
        /// Whether ignore-file rules are honored during the copy.
        use_gitignore: bool,
    },
    /// Create the destination directory if it is absent.
    CreateDir {
        /// The directory to create.
        dest: Seq<char>,
    },
    /// Extract an archive into the destination.
    ExtractArchive {
        /// The archive to extract.
        archive: Seq<char>,
        /// The destination directory.
        dest: Seq<char>,
    },
    /// Copy one file to the given destination path.
    CopyFile {
        /// The file to copy.
        from: Seq<char>,
        /// The full destination path.
        to: Seq<char>,
    },
    /// Apply the patch files in order.
    ApplyPatches {
        /// Patch files, in declaration order.
        patches: Seq<Seq<char>>,
        /// The work directory the patches are applied in.
        work_dir: Seq<char>,
        /// The directory the patch files are resolved against.
        recipe_dir: Seq<char>,
    },
}

impl View for FetchOp {
    type V = FetchOpV;

    open spec fn view(&self) -> FetchOpV {
        match self {
            FetchOp::CopyTree { from, dest, use_gitignore } => FetchOpV::CopyTree {
                from: from@,
                dest: dest@,
                use_gitignore: *use_gitignore,
            },
            FetchOp::CreateDir { dest } => FetchOpV::CreateDir { dest: dest@ },
            FetchOp::ExtractArchive { archive, dest } => FetchOpV::ExtractArchive {
                archive: archive@,
                dest: dest@,
            },
            FetchOp::CopyFile { from, to } => FetchOpV::CopyFile { from: from@, to: to@ },
            FetchOp::ApplyPatches { patches, work_dir, recipe_dir } => FetchOpV::ApplyPatches {
                patches: patches.deep_view(),
                work_dir: work_dir@,
                recipe_dir: recipe_dir@,
            },
        }
    }
}

impl DeepView for FetchOp {
    type V = FetchOpV;

    open spec fn deep_view(&self) -> FetchOpV {
        self@
    }
}

/// The patch step of one source: a single patch application when the
/// source declares patches, nothing otherwise.
pub open spec fn patch_ops(
    patches: Seq<Seq<char>>,
    work_dir: Seq<char>,
    recipe_dir: Seq<char>,
) -> Seq<FetchOpV> {
    if patches.len() > 0 {
        seq![FetchOpV::ApplyPatches { patches, work_dir, recipe_dir }]
    } else {
        Seq::empty()
    }
}

/// The operations that place one fetched source into the work directory,
/// or the error that stops the build instead.
///
/// A git tree is copied without honoring ignore-file rules (the
/// checked-out tree is already clean).  A download is extracted when its
/// name marks an archive, copied under the explicit or derived file name
/// otherwise, and a download whose name cannot be derived is an error.  A
/// missing local path is an error; a local directory is copied honoring
/// the source's ignore-file flag, a local file is copied under the
/// explicit or derived file name.
pub open spec fn materialize_ops(src: SourceV, art: FetchedArtifactV, work_dir: Seq<char>) -> Result<
    Seq<FetchOpV>,
    SourceErrorV,
> {
    let dest = dest_dir_spec(work_dir, src.folder());
    match src {
        SourceV::Git(_) => {
            let tree = art->GitTree_tree;
            Ok(seq![FetchOpV::CopyTree { from: tree, dest, use_gitignore: false }])
        },
        SourceV::Url(u) => {
            let file = art->DownloadedFile_file;
            if is_archive_name_spec(base_name_spec(file)) {
                Ok(
                    seq![
                        FetchOpV::CreateDir { dest },
                        FetchOpV::ExtractArchive { archive: file, dest },
                    ],
                )
            } else {
                match u.file_name {
                    Some(name) => Ok(
                        seq![
                            FetchOpV::CreateDir { dest },
                            FetchOpV::CopyFile { from: file, to: dest + seq!['/'] + name },
                        ],
                    ),
                    None => {
                        let name = base_name_spec(file);
                        if name.len() > 0 {
                            Ok(
                                seq![
                                    FetchOpV::CreateDir { dest },
                                    FetchOpV::CopyFile { from: file, to: dest + seq!['/'] + name },
                                ],
                            )
                        } else {
                            Err(
                                SourceErrorV::UnknownError(
                                    "Failed to get filename for `"@ + file + "`"@,
                                ),
                            )
                        }
                    },
                }
            }
        },
        SourceV::Path(p) => {
            let canonical = art->LocalPath_canonical;
            if !art->LocalPath_exists {
                Err(SourceErrorV::FileNotFound(canonical))
            } else if art->LocalPath_is_dir {
                Ok(
                    seq![
                        FetchOpV::CreateDir { dest },
                        FetchOpV::CopyTree {
                            from: canonical,
                            dest,
                            use_gitignore: p.use_gitignore,
                        },
                    ],
                )
            } else {
                let name = match p.file_name {
                    Some(name) => name,
                    None => base_name_spec(canonical),
                };
                if name.len() > 0 {
                    Ok(
                        seq![
                            FetchOpV::CreateDir { dest },
                            FetchOpV::CopyFile { from: canonical, to: dest + seq!['/'] + name },
                        ],
                    )
                } else {
                    Err(SourceErrorV::FileNotFound(canonical))
                }
            }
        },
    }
}

/// Everything one source asks for after its fetch: its materialization
/// followed — when it declares patches — by one patch application, or the
/// first error.
pub open spec fn source_ops_spec(
    src: SourceV,
    art: FetchedArtifactV,
    work_dir: Seq<char>,
    recipe_dir: Seq<char>,
) -> Result<Seq<FetchOpV>, SourceErrorV> {
    match materialize_ops(src, art, work_dir) {
        Ok(ops) => Ok(ops + patch_ops(src.patches(), work_dir, recipe_dir)),
        Err(e) => Err(e),
    }
}

/// Decide the operations that place one fetched source into the work
/// directory and apply its patches, in order.
pub fn source_ops(src: &Source, art: &FetchedArtifact, work_dir: &str, recipe_dir: &str) -> (r:
    Result<Vec<FetchOp>, SourceError>)
    requires
        artifact_matches(src@, art@),
    ensures
        match r {
            Ok(ops) => source_ops_spec(src@, art@, work_dir@, recipe_dir@) == Ok::<
                Seq<FetchOpV>,
                SourceErrorV,
            >(ops.deep_view()),
            Err(e) => source_ops_spec(src@, art@, work_dir@, recipe_dir@) == Err::<
                Seq<FetchOpV>,
                SourceErrorV,
            >(e@),
        },
{
    let mut ops: Vec<FetchOp> = Vec::new();
    match src {
        Source::Git(g) => {
            let tree = match art {
                FetchedArtifact::GitTree { tree } => tree,
                _ => unreached(),
            };
            ops.push(
                FetchOp::CopyTree {
                    from: tree.clone(),
                    dest: dest_dir(work_dir, &g.folder),
                    use_gitignore: false,
                },
            );
            push_patch_op(&mut ops, &g.patches, work_dir, recipe_dir);
            proof {
                assert(ops.deep_view() =~= source_ops_spec(
                    src@,
                    art@,
                    work_dir@,
                    recipe_dir@,
                )->Ok_0);
            }
            Ok(ops)
        },
        Source::Url(u) => {
            let file = match art {
                FetchedArtifact::DownloadedFile { file } => file,
                _ => unreached(),
            };
            let dest = dest_dir(work_dir, &u.folder);
            let derived = base_name(file.as_str());
            ops.push(FetchOp::CreateDir { dest: dest.clone() });
            if is_archive_name(derived.as_str()) {
                ops.push(FetchOp::ExtractArchive { archive: file.clone(), dest });
            } else {
                match &u.file_name {
                    Some(name) => {
                        let to = path_join(dest.as_str(), name.as_str());
                        ops.push(FetchOp::CopyFile { from: file.clone(), to });
                    },
                    None => {
                        if derived.unicode_len() > 0 {
                            let to = path_join(dest.as_str(), derived.as_str());
                            ops.push(FetchOp::CopyFile { from: file.clone(), to });
                        } else {
                            let mut text = String::from_str("Failed to get filename for `");
                            text.append(file.as_str());
                            text.append("`");
                            return Err(SourceError::UnknownError(text));
                        }
                    },
                }
            }
            push_patch_op(&mut ops, &u.patches, work_dir, recipe_dir);
            proof {
                assert(ops.deep_view() =~= source_ops_spec(
                    src@,
                    art@,
                    work_dir@,
                    recipe_dir@,
                )->Ok_0);
            }
            Ok(ops)
        },
        Source::Path(p) => {
            let (canonical, exists, is_dir) = match art {
                FetchedArtifact::LocalPath { canonical, exists, is_dir } => (
                    canonical,
                    *exists,
                    *is_dir,
                ),
                _ => unreached(),
            };
            if !exists {
                return Err(SourceError::FileNotFound(canonical.clone()));
            }
            let dest = dest_dir(work_dir, &p.folder);
            ops.push(FetchOp::CreateDir { dest: dest.clone() });
            if is_dir {
                ops.push(
                    FetchOp::CopyTree {
                        from: canonical.clone(),
                        dest,
                        use_gitignore: p.use_gitignore,
                    },
                );
            } else {
                let name = match &p.file_name {
                    Some(name) => name.clone(),
                    None => base_name(canonical.as_str()),
                };
                if name.unicode_len() > 0 {
                    let to = path_join(dest.as_str(), name.as_str());
                    ops.push(FetchOp::CopyFile { from: canonical.clone(), to });
                } else {
                    return Err(SourceError::FileNotFound(canonical.clone()));
                }
            }
            push_patch_op(&mut ops, &p.patches, work_dir, recipe_dir);
            proof {
                assert(ops.deep_view() =~= source_ops_spec(
                    src@,
                    art@,
                    work_dir@,
                    recipe_dir@,
                )->Ok_0);
            }
            Ok(ops)
        },
    }
}

/// The operations of source `i` in a list, when its planning succeeded;
/// empty where it reported an error (the pipeline stops there anyway).
pub open spec fn ops_of(
    sources: Seq<SourceV>,
    arts: Seq<FetchedArtifactV>,
    work_dir: Seq<char>,
    recipe_dir: Seq<char>,
    i: int,
) -> Seq<FetchOpV> {
    match source_ops_spec(sources[i], arts[i], work_dir, recipe_dir) {
        Ok(ops) => ops,
        Err(_) => Seq::empty(),
    }
}

/// `ops` tagged with the index of the source they serve.
pub open spec fn tag_ops(i: int, ops: Seq<FetchOpV>) -> Seq<(int, FetchOpV)> {
    Seq::new(ops.len(), |k: int| (i, ops[k]))
}

/// The acquisition plan for the first `n` sources: every source's
/// operations in declaration order, each tagged with its source's index.
pub open spec fn acquisition_plan(
    sources: Seq<SourceV>,
    arts: Seq<FetchedArtifactV>,
    work_dir: Seq<char>,
    recipe_dir: Seq<char>,
    n: int,
) -> Seq<(int, FetchOpV)>
    decreases n,
{
    if n <= 0 {
        Seq::empty()
    } else {
        acquisition_plan(sources, arts, work_dir, recipe_dir, n - 1) + tag_ops(
            n - 1,
            ops_of(sources, arts, work_dir, recipe_dir, n - 1),
        )
    }
}

/// Within one source's operations, patch application — present exactly
/// when the source declares patches — stands last, after every
/// materialization step.
pub proof fn lemma_patches_last(
    src: SourceV,
    art: FetchedArtifactV,
    work_dir: Seq<char>,
    recipe_dir: Seq<char>,
)
    ensures
        source_ops_spec(src, art, work_dir, recipe_dir) matches Ok(ops) ==> {
            &&& forall|k: int|
                0 <= k < ops.len() && ops[k] is ApplyPatches ==> k == ops.len() - 1
                    && src.patches().len() > 0
            &&& src.patches().len() > 0 ==> ops.len() > 0 && ops[ops.len() - 1]
                == FetchOpV::ApplyPatches {
                patches: src.patches(),
                work_dir,
                recipe_dir,
            }
        },
{
    if source_ops_spec(src, art, work_dir, recipe_dir) is Ok {
        let m = materialize_ops(src, art, work_dir)->Ok_0;
        let ops = source_ops_spec(src, art, work_dir, recipe_dir)->Ok_0;
        assert(forall|k: int| 0 <= k < m.len() ==> !(m[k] is ApplyPatches));
        assert forall|k: int| 0 <= k < ops.len() && ops[k] is ApplyPatches implies k == ops.len()
            - 1 && src.patches().len() > 0 by {
            if k < m.len() {
                assert(ops[k] == m[k]);
            }
        }
    }
}

/// Patches for a source are never applied before that source's own
/// materialization completes, and always before any operation of a later
/// source begins: the plan keeps declaration order, and within each
/// source the patch step is the last operation of that source.
pub proof fn lemma_patch_barrier(
    sources: Seq<SourceV>,
    arts: Seq<FetchedArtifactV>,
    work_dir: Seq<char>,
    recipe_dir: Seq<char>,
    n: int,
)
    requires
        0 <= n,
    ensures
        ({
            let plan = acquisition_plan(sources, arts, work_dir, recipe_dir, n);
            &&& forall|k: int| 0 <= k < plan.len() ==> 0 <= #[trigger] plan[k].0 < n
            &&& forall|k1: int, k2: int|
                0 <= k1 < k2 < plan.len() ==> #[trigger] plan[k1].0 <= #[trigger] plan[k2].0
            &&& forall|k1: int, k2: int|
                (0 <= k1 < plan.len() && 0 <= k2 < plan.len() && plan[k1].1 is ApplyPatches
                    && #[trigger] plan[k1].0 == #[trigger] plan[k2].0 && k1 != k2) ==> k2 < k1
        }),
    decreases n,
{
    if n > 0 {
        lemma_patch_barrier(sources, arts, work_dir, recipe_dir, n - 1);
        lemma_patches_last(sources[n - 1], arts[n - 1], work_dir, recipe_dir);
        let prev = acquisition_plan(sources, arts, work_dir, recipe_dir, n - 1);
        let ops = ops_of(sources, arts, work_dir, recipe_dir, n - 1);
        let seg = tag_ops(n - 1, ops);
        let plan = acquisition_plan(sources, arts, work_dir, recipe_dir, n);
        assert(plan == prev + seg);
        assert(forall|k: int| 0 <= k < seg.len() ==> #[trigger] seg[k].0 == n - 1);
        assert(forall|k: int|
            0 <= k < ops.len() && ops[k] is ApplyPatches ==> k == ops.len() - 1);
        assert forall|k1: int, k2: int|
            (0 <= k1 < plan.len() && 0 <= k2 < plan.len() && plan[k1].1 is ApplyPatches
                && #[trigger] plan[k1].0 == #[trigger] plan[k2].0 && k1 != k2) implies k2 < k1 by {
            if k1 >= prev.len() {
                assert(plan[k1] == seg[k1 - prev.len()]);
                assert(seg[k1 - prev.len()].1 == ops[k1 - prev.len()]);
                if k2 >= prev.len() {
                    assert(k1 - prev.len() == ops.len() - 1);
                } else {
                    assert(plan[k2].0 < n - 1);
                }
            } else {
                if k2 >= prev.len() {
                    assert(plan[k2].0 == n - 1);
                    assert(plan[k1].0 < n - 1);
                }
            }
        }
    }
}

/// What one operation leaves in the destination directory.  `env` gives,
/// for a path on disk, the set of relative paths of the files under it —
/// a tree's files, or an archive's entries.
pub open spec fn op_effect(
    op: FetchOpV,
    env: Map<Seq<char>, Set<Seq<char>>>,
    dest_files: Set<Seq<char>>,
) -> Set<Seq<char>> {
    match op {
        FetchOpV::CopyTree { from, .. } => dest_files.union(env[from]),
        FetchOpV::CreateDir { .. } => dest_files,
        FetchOpV::ExtractArchive { archive, .. } => dest_files.union(strip_set(env[archive])),
        FetchOpV::CopyFile { to, .. } => dest_files.insert(base_name_spec(to)),
        FetchOpV::ApplyPatches { .. } => dest_files,
    }
}

/// What a sequence of operations, run in order, leaves in the destination.
pub open spec fn ops_effect(
    ops: Seq<FetchOpV>,
    env: Map<Seq<char>, Set<Seq<char>>>,
    dest_files: Set<Seq<char>>,
) -> Set<Seq<char>>
    decreases ops.len(),
{
    if ops.len() == 0 {
        dest_files
    } else {
        ops_effect(ops.skip(1), env, op_effect(ops[0], env, dest_files))
    }
}

/// The effect of a single operation, spelled out.
proof fn lemma_effect_one(
    ops: Seq<FetchOpV>,
    env: Map<Seq<char>, Set<Seq<char>>>,
    dest_files: Set<Seq<char>>,
)
    requires
        ops.len() == 1,
    ensures
        ops_effect(ops, env, dest_files) == op_effect(ops[0], env, dest_files),
{
    assert(ops.skip(1).len() == 0);
    assert(ops_effect(ops.skip(1), env, op_effect(ops[0], env, dest_files)) == op_effect(
        ops[0],
        env,
        dest_files,
    ));
}

/// The effect of two operations, spelled out.
proof fn lemma_effect_two(
    ops: Seq<FetchOpV>,
    env: Map<Seq<char>, Set<Seq<char>>>,
    dest_files: Set<Seq<char>>,
)
    requires
        ops.len() == 2,
    ensures
        ops_effect(ops, env, dest_files) == op_effect(
            ops[1],
            env,
            op_effect(ops[0], env, dest_files),
        ),
{
    assert(ops.skip(1)[0] == ops[1]);
    lemma_effect_one(ops.skip(1), env, op_effect(ops[0], env, dest_files));
}

/// The content a fetched source stands for: the tree's files, the
/// archive's stripped entries, or the single copied file under its chosen
/// name.
pub open spec fn fetched_content(
    src: SourceV,
    art: FetchedArtifactV,
    env: Map<Seq<char>, Set<Seq<char>>>,
) -> Set<Seq<char>> {
    match src {
        SourceV::Git(_) => env[art->GitTree_tree],
        SourceV::Url(u) => {
            let file = art->DownloadedFile_file;
            if is_archive_name_spec(base_name_spec(file)) {
                strip_set(env[file])
            } else {
                set![
                    match u.file_name {
                        Some(name) => name,
                        None => base_name_spec(file),
                    },
                ]
            }
        },
        SourceV::Path(p) => {
            let canonical = art->LocalPath_canonical;
            if art->LocalPath_is_dir {
                env[canonical]
            } else {
                set![
                    match p.file_name {
                        Some(name) => name,
                        None => base_name_spec(canonical),
                    },
                ]
            }
        },
    }
}

/// True when the source's explicit destination file name, if any, is a
/// plain name without a path separator.
pub open spec fn plain_file_name(src: SourceV) -> bool {
    match src {
        SourceV::Url(u) => match u.file_name {
            Some(name) => !has_separator(name),
            None => true,
        },
        SourceV::Path(p) => match p.file_name {
            Some(name) => !has_separator(name),
            None => true,
        },
        SourceV::Git(_) => true,
    }
}

/// Materializing a source with an empty patch list into an empty
/// destination leaves the destination holding exactly the fetched
/// content: no extra and no missing files.  This holds of every source
/// variant; an explicit destination file name must be a plain name.
pub proof fn lemma_materialization_exact(
    src: SourceV,
    art: FetchedArtifactV,
    work_dir: Seq<char>,
    recipe_dir: Seq<char>,
    env: Map<Seq<char>, Set<Seq<char>>>,
)
    requires
        artifact_matches(src, art),
        src.patches().len() == 0,
        plain_file_name(src),
    ensures
        source_ops_spec(src, art, work_dir, recipe_dir) matches Ok(ops) ==> ops_effect(
            ops,
            env,
            Set::empty(),
        ) == fetched_content(src, art, env),
{
    if source_ops_spec(src, art, work_dir, recipe_dir) is Ok {
        let ops = source_ops_spec(src, art, work_dir, recipe_dir)->Ok_0;
        let m = materialize_ops(src, art, work_dir)->Ok_0;
        assert(ops =~= m);
        let dest = dest_dir_spec(work_dir, src.folder());
        match src {
            SourceV::Git(_) => {
                lemma_effect_one(ops, env, Set::empty());
                assert(Set::empty().union(env[art->GitTree_tree]) =~= fetched_content(
                    src,
                    art,
                    env,
                ));
            },
            SourceV::Url(u) => {
                let file = art->DownloadedFile_file;
                lemma_effect_two(ops, env, Set::empty());
                if is_archive_name_spec(base_name_spec(file)) {
                    assert(Set::empty().union(strip_set(env[file])) =~= fetched_content(
                        src,
                        art,
                        env,
                    ));
                } else {
                    let name = match u.file_name {
                        Some(name) => name,
                        None => base_name_spec(file),
                    };
                    if u.file_name is None {
                        lemma_base_name_no_separator(file);
                    }
                    lemma_base_name_join(dest, name);
                    assert(Set::empty().insert(name) =~= fetched_content(src, art, env));
                }
            },
            SourceV::Path(p) => {
                let canonical = art->LocalPath_canonical;
                lemma_effect_two(ops, env, Set::empty());
                if art->LocalPath_is_dir {
                    assert(Set::empty().union(env[canonical]) =~= fetched_content(src, art, env));
                } else {
                    let name = match p.file_name {
                        Some(name) => name,
                        None => base_name_spec(canonical),
                    };
                    if p.file_name is None {
                        lemma_base_name_no_separator(canonical);
                    }
                    lemma_base_name_join(dest, name);
                    assert(Set::empty().insert(name) =~= fetched_content(src, art, env));
                }
            },
        }
    }
}

/// Append the patch step when the source declares patches.
fn push_patch_op(ops: &mut Vec<FetchOp>, patches: &Vec<String>, work_dir: &str, recipe_dir: &str)
    ensures
        final(ops).deep_view() == old(ops).deep_view() + patch_ops(
            patches.deep_view(),
            work_dir@,
            recipe_dir@,
        ),
{
    if patches.len() > 0 {
        ops.push(
            FetchOp::ApplyPatches {
                patches: clone_strings(patches),
                work_dir: String::from_str(work_dir),
                recipe_dir: String::from_str(recipe_dir),
            },
        );
        proof {
            assert(final(ops).deep_view() =~= old(ops).deep_view() + patch_ops(
                patches.deep_view(),
                work_dir@,
                recipe_dir@,
            ));
        }
    } else {
        proof {
            assert(patches.deep_view().len() == 0);
            assert(final(ops).deep_view() =~= old(ops).deep_view() + patch_ops(
                patches.deep_view(),
                work_dir@,
                recipe_dir@,
            ));
        }
    }
}

} // verus!
