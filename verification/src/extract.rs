//! Archive extraction: the argument vector handed to the external
//! `tar`-compatible capability, the reading of its outcome, and the model
//! of what stripping one leading path component does to an archive's
//! entries.

use vstd::prelude::*;

use crate::error::SourceError;
use crate::error::SourceErrorV;

verus! {

/// The argument vector for extracting `archive` into `target`: extract,
/// preserve permission bits, strip exactly one leading path component.
pub open spec fn tar_args_spec(archive: Seq<char>, target: Seq<char>) -> Seq<Seq<char>> {
    seq![
        "-xf"@,
        archive,
        "--preserve-permissions"@,
        "--strip-components=1"@,
        "-C"@,
        target,
    ]
}

/// Build the argument vector for extracting `archive` into `target`.
pub fn tar_args(archive: &str, target: &str) -> (r: Vec<String>)
    ensures
        r.deep_view() == tar_args_spec(archive@, target@),
{
    let mut r: Vec<String> = Vec::new();
    r.push(String::from_str("-xf"));
    r.push(String::from_str(archive));
    r.push(String::from_str("--preserve-permissions"));
    r.push(String::from_str("--strip-components=1"));
    r.push(String::from_str("-C"));
    r.push(String::from_str(target));
    proof {
        assert(r.deep_view() =~= tar_args_spec(archive@, target@));
    }
    r
}

/// The diagnostic text reported when extraction fails, holding the
/// archive path and the captured process output.
pub open spec fn extraction_failure_text(
    archive: Seq<char>,
    out: Seq<char>,
    err: Seq<char>,
) -> Seq<char> {
    "Failed to extract archive: "@ + archive + ".\nStdout: "@ + out + "\nStderr: "@ + err
}

/// Read the outcome of the external extraction: success is success, and
/// a non-zero exit becomes an extraction error carrying the archive path
/// and the captured standard output and standard error.
pub fn extraction_outcome(success: bool, archive: &str, out: &str, err: &str) -> (r: Result<
    (),
    SourceError,
>)
    ensures
        success <==> r is Ok,
        !success ==> (r matches Err(e) && e@ == SourceErrorV::ExtractionError(
            extraction_failure_text(archive@, out@, err@),
        )),
{
    if success {
        Ok(())
    } else {
        let mut text = String::from_str("Failed to extract archive: ");
        text.append(archive);
        text.append(".\nStdout: ");
        text.append(out);
        text.append("\nStderr: ");
        text.append(err);
        Err(SourceError::ExtractionError(text))
    }
}

/// True when `p` holds a path separator.
pub open spec fn has_separator(p: Seq<char>) -> bool {
    exists|i: int| 0 <= i < p.len() && p[i] == '/'
}

/// `p` with its first path component removed: everything after the first
/// separator.
pub open spec fn strip_first_component_spec(p: Seq<char>) -> Seq<char>
    decreases p.len(),
{
    if p.len() == 0 {
        p
    } else if p[0] == '/' {
        p.skip(1)
    } else {
        strip_first_component_spec(p.skip(1))
    }
}

/// The file set an extraction with one component stripped leaves in its
/// target: every entry that has a separator, under its stripped name.
/// Entries without a separator (the top-level wrapper itself) contribute
/// nothing.
pub open spec fn strip_set(entries: Set<Seq<char>>) -> Set<Seq<char>> {
    entries.filter(|p: Seq<char>| has_separator(p)).map(
        |p: Seq<char>| strip_first_component_spec(p),
    )
}

/// Stripping the first component of `top + '/' + inner` yields `inner`
/// when `top` itself holds no separator.
pub proof fn lemma_strip_prefixed(top: Seq<char>, inner: Seq<char>)
    requires
        !has_separator(top),
    ensures
        strip_first_component_spec(top + seq!['/'] + inner) == inner,
    decreases top.len(),
{
    let p = top + seq!['/'] + inner;
    if top.len() == 0 {
        assert(p[0] == '/');
        assert(p.skip(1) =~= inner);
    } else {
        assert(p[0] == top[0]);
        assert(p[0] != '/');
        assert(p.skip(1) =~= top.skip(1) + seq!['/'] + inner);
        assert(!has_separator(top.skip(1)));
        lemma_strip_prefixed(top.skip(1), inner);
    }
}

/// Extraction of a well-formed archive — every entry lies under one
/// top-level wrapper directory — into an empty target yields exactly the
/// inner contents, with the wrapper removed.
pub proof fn lemma_extract_single_top_level(inners: Set<Seq<char>>, top: Seq<char>)
    requires
        !has_separator(top),
    ensures
        strip_set(inners.map(|inner: Seq<char>| top + seq!['/'] + inner)) == inners,
{
    let entries = inners.map(|inner: Seq<char>| top + seq!['/'] + inner);
    assert forall|q: Seq<char>| strip_set(entries).contains(q) implies inners.contains(q) by {
        let p = choose|p: Seq<char>|
            entries.filter(|p: Seq<char>| has_separator(p)).contains(p)
                && strip_first_component_spec(p) == q;
        let inner = choose|inner: Seq<char>| inners.contains(inner) && p == top + seq!['/'] + inner;
        lemma_strip_prefixed(top, inner);
    }
    assert forall|q: Seq<char>| inners.contains(q) implies strip_set(entries).contains(q) by {
        let p = top + seq!['/'] + q;
        assert(entries.contains(p));
        assert(p[top.len() as int] == '/');
        assert(has_separator(p));
        assert(entries.filter(|p: Seq<char>| has_separator(p)).contains(p));
        lemma_strip_prefixed(top, q);
        assert(strip_set(entries).contains(strip_first_component_spec(p)));
    }
    assert(strip_set(entries) =~= inners);
}

} // verus!
