//! The process runner's decisions: the per-line log substitutions that
//! rewrite absolute prefixes to symbolic placeholders, and the reading of
//! the subprocess's exit status.
//!
//! The substitutions touch the log stream only — the function here
//! returns a new line and leaves every input untouched, so neither the
//! on-disk script nor the filesystem can be altered by them.

use vstd::prelude::*;

use crate::text::replace_all_spec;
use crate::text::replace_all;

verus! {

/// One literal substitution: every occurrence of `from` becomes `to`.
#[derive(Debug, Clone, PartialEq, Eq)]
pub struct Replacement {
    /// The literal text to replace.
    pub from: String,
    /// The text that stands in for it.
    pub to: String,
}

impl View for Replacement {
    type V = (Seq<char>, Seq<char>);

    open spec fn view(&self) -> (Seq<char>, Seq<char>) {
        (self.from@, self.to@)
    }
}

impl DeepView for Replacement {
    type V = (Seq<char>, Seq<char>);

    open spec fn deep_view(&self) -> (Seq<char>, Seq<char>) {
        self@
    }
}

/// One log line after the ordered substitutions: each pair is applied in
/// turn to the previous pair's result.
pub open spec fn substituted_spec(line: Seq<char>, pairs: Seq<(Seq<char>, Seq<char>)>) -> Seq<char>
    decreases pairs.len(),
{
    if pairs.len() == 0 {
        line
    } else {
        substituted_spec(replace_all_spec(line, pairs[0].0, pairs[0].1), pairs.skip(1))
    }
}

/// Apply the ordered substitutions to one log line.  Lines are
/// independent: the result depends on this line and the pairs alone.
pub fn substitute_line(line: &str, pairs: &Vec<Replacement>) -> (r: String)
    ensures
        r@ == substituted_spec(line@, pairs.deep_view()),
{
    let mut acc = String::from_str(line);
    let mut i: usize = 0;
    proof {
        assert(pairs.deep_view().skip(0) =~= pairs.deep_view());
    }
    while i < pairs.len()
        invariant
            i <= pairs.len(),
            substituted_spec(line@, pairs.deep_view()) == substituted_spec(
                acc@,
                pairs.deep_view().skip(i as int),
            ),
        decreases pairs.len() - i,
    {
        let next = replace_all(acc.as_str(), pairs[i].from.as_str(), pairs[i].to.as_str());
        proof {
            let dv = pairs.deep_view();
            assert(dv.skip(i as int)[0] == dv[i as int]);
            assert(dv[i as int] == pairs[i as int]@);
            assert(dv.skip(i as int).skip(1) =~= dv.skip(i as int + 1));
        }
        acc = next;
        i += 1;
    }
    proof {
        assert(pairs.deep_view().skip(pairs.len() as int).len() == 0);
    }
    acc
}

/// The two standard build-log substitutions: the host prefix becomes
/// `$PREFIX` and the build prefix becomes `$BUILD_PREFIX`.
pub fn standard_replacements(host_prefix: &str, build_prefix: &str) -> (r: Vec<Replacement>)
    ensures
        r.deep_view() == seq![(host_prefix@, "$PREFIX"@), (build_prefix@, "$BUILD_PREFIX"@)],
{
    let mut r: Vec<Replacement> = Vec::new();
    r.push(
        Replacement { from: String::from_str(host_prefix), to: String::from_str("$PREFIX") },
    );
    r.push(
        Replacement {
            from: String::from_str(build_prefix),
            to: String::from_str("$BUILD_PREFIX"),
        },
    );
    proof {
        assert(r.deep_view() =~= seq![
            (host_prefix@, "$PREFIX"@),
            (build_prefix@, "$BUILD_PREFIX"@),
        ]);
    }
    r
}

/// Read the subprocess's exit: success continues the pipeline, a
/// non-zero exit fails the build — the runner never retries.
pub fn script_exit_outcome(success: bool) -> (r: Result<(), String>)
    ensures
        success <==> r is Ok,
        r matches Err(m) ==> m@ == "Build failed"@,
{
    if success {
        Ok(())
    } else {
        Err(String::from_str("Build failed"))
    }
}

} // verus!
