//! The build orchestrator: a linear pipeline of steps with no backward
//! transitions.
//!
//! Each step stands for one outside stage — indexing, fetching,
//! dependency handling, script writing, snapshots, the script run,
//! packaging, tests, cleanup.  The driver performs the current step,
//! reports whether it succeeded, and asks for the next one; any failure
//! aborts every remaining step, and cleanup steps are skipped exactly
//! when the caller requests artifact retention.

use vstd::prelude::*;

use crate::text::path_join;
use crate::text::starts_with_spec;
use crate::text::starts_with;

verus! {

/// True when `child` lies strictly below `parent`: it continues
/// `parent` past a separator.
pub open spec fn is_descendant(child: Seq<char>, parent: Seq<char>) -> bool {
    starts_with_spec(child, parent + seq!['/'])
}

/// The fixed directory layout of one build invocation.
#[derive(Debug, Clone, PartialEq, Eq)]
pub struct Directories {
    /// The recipe directory, a read-only input.
    pub recipe_dir: String,
    /// The build scratch space.
    pub work_dir: String,
    /// The ephemeral build directory, a descendant of the work directory.
    pub build_dir: String,
    /// The channel and package destination.
    pub output_dir: String,
    /// The install root that becomes the package's file tree.
    pub host_prefix: String,
    /// The install root of build-time-only tools.
    pub build_prefix: String,
}

impl Directories {
    /// The layout's invariant: the two install prefixes are distinct
    /// from the output directory, and the build directory lies below the
    /// work directory.
    pub open spec fn wf(&self) -> bool {
        &&& self.host_prefix@ != self.output_dir@
        &&& self.build_prefix@ != self.output_dir@
        &&& is_descendant(self.build_dir@, self.work_dir@)
    }

    /// Lay out the directories of a build: the build directory is the
    /// given subdirectory of the work directory, and a layout whose
    /// prefixes collide with the output directory is refused.
    pub fn new(
        recipe_dir: &str,
        work_dir: &str,
        build_subdir: &str,
        output_dir: &str,
        host_prefix: &str,
        build_prefix: &str,
    ) -> (r: Option<Directories>)
        ensures
            r is Some <==> (host_prefix@ != output_dir@ && build_prefix@ != output_dir@),
            r matches Some(d) ==> {
                &&& d.wf()
                &&& d.recipe_dir@ == recipe_dir@
                &&& d.work_dir@ == work_dir@
                &&& d.build_dir@ == work_dir@ + seq!['/'] + build_subdir@
                &&& d.output_dir@ == output_dir@
                &&& d.host_prefix@ == host_prefix@
                &&& d.build_prefix@ == build_prefix@
            },
    {
        let host = String::from_str(host_prefix);
        let build = String::from_str(build_prefix);
        let output = String::from_str(output_dir);
        if host.eq(&output) || build.eq(&output) {
            return None;
        }
        let build_dir = path_join(work_dir, build_subdir);
        proof {
            assert(starts_with_spec(work_dir@ + seq!['/'] + build_subdir@, work_dir@ + seq!['/']))
                by {
                assert((work_dir@ + seq!['/'] + build_subdir@).subrange(
                    0,
                    work_dir@.len() as int + 1,
                ) =~= work_dir@ + seq!['/']);
            }
        }
        Some(
            Directories {
                recipe_dir: String::from_str(recipe_dir),
                work_dir: String::from_str(work_dir),
                build_dir,
                output_dir: output,
                host_prefix: host,
                build_prefix: build,
            },
        )
    }

    /// Whether this layout satisfies its invariant.
    pub fn check(&self) -> (b: bool)
        ensures
            b == self.wf(),
    {
        if self.host_prefix.eq(&self.output_dir) {
            return false;
        }
        if self.build_prefix.eq(&self.output_dir) {
            return false;
        }
        let parent = path_join(self.work_dir.as_str(), "");
        proof {
            reveal_strlit("");
            assert(self.work_dir@ + seq!['/'] + ""@ =~= self.work_dir@ + seq!['/']);
        }
        starts_with(self.build_dir.as_str(), parent.as_str())
    }
}

/// The flags and recipe facts the pipeline's course depends on.
#[derive(Clone, Copy, Debug, PartialEq, Eq, Structural)]
pub struct BuildFlags {
    /// Whether the recipe declares any sources.
    pub has_sources: bool,
    /// Whether finalized dependencies are already attached to the build.
    pub finalized: bool,
    /// Whether the recipe declares package-content tests.
    pub has_package_content_tests: bool,
    /// Whether the caller requested artifact retention: no cleanup.
    pub no_clean: bool,
    /// Whether package tests are globally disabled.
    pub no_test: bool,
}

/// One step of the build pipeline, in its fixed order.
#[derive(Clone, Copy, Debug, PartialEq, Eq, Structural)]
pub enum BuildStep {
    /// Index the output directory as a local channel.
    IndexOutput,
    /// Fetch every declared source and apply its patches.
    FetchSources,
    /// Install the environments of already-finalized dependencies.
    InstallEnvironments,
    /// Resolve dependencies against the channel list and finalize them.
    ResolveDependencies,
    /// Resolve and persist the build script.
    WriteBuildScript,
    /// Snapshot the host prefix before the script runs.
    SnapshotBefore,
    /// Run the build script in the work directory.
    RunBuildScript,
    /// Snapshot the host prefix after the script ran; diff the two.
    SnapshotAfter,
    /// Package the new files.
    Package,
    /// Run the declared package-content tests against the manifest.
    PackageContentTests,
    /// Remove the build directory.
    CleanBuildDir,
    /// Re-index the output directory so the new package becomes visible.
    ReindexOutput,
    /// Create the test-prefix subdirectory of the work directory.
    MakeTestDir,
    /// Run the package's tests in the test prefix.
    RunPackageTests,
    /// Remove the build directory again, covering test artifacts.
    CleanBuildDirAgain,
    /// The build completed; the package archive path is the result.
    Finished,
    /// A step failed; every remaining step is skipped.
    Aborted,
}

/// The position of a step in the pipeline's fixed order.
pub open spec fn step_rank(step: BuildStep) -> int {
    match step {
        BuildStep::IndexOutput => 0,
        BuildStep::FetchSources => 1,
        BuildStep::InstallEnvironments => 2,
        BuildStep::ResolveDependencies => 2,
        BuildStep::WriteBuildScript => 3,
        BuildStep::SnapshotBefore => 4,
        BuildStep::RunBuildScript => 5,
        BuildStep::SnapshotAfter => 6,
        BuildStep::Package => 7,
        BuildStep::PackageContentTests => 8,
        BuildStep::CleanBuildDir => 9,
        BuildStep::ReindexOutput => 10,
        BuildStep::MakeTestDir => 11,
        BuildStep::RunPackageTests => 12,
        BuildStep::CleanBuildDirAgain => 13,
        BuildStep::Finished => 14,
        BuildStep::Aborted => 15,
    }
}

/// The dependency step: reuse what is finalized, or resolve anew.
pub open spec fn dependency_step(flags: BuildFlags) -> BuildStep {
    if flags.finalized {
        BuildStep::InstallEnvironments
    } else {
        BuildStep::ResolveDependencies
    }
}

/// The step after packaging and its content tests: cleanup unless
/// retention is requested, then re-indexing.
pub open spec fn after_package_step(flags: BuildFlags) -> BuildStep {
    if flags.no_clean {
        BuildStep::ReindexOutput
    } else {
        BuildStep::CleanBuildDir
    }
}

/// The step after the test phase: the second cleanup unless retention is
/// requested, then the finish.
pub open spec fn after_tests_step(flags: BuildFlags) -> BuildStep {
    if flags.no_clean {
        BuildStep::Finished
    } else {
        BuildStep::CleanBuildDirAgain
    }
}

/// The step that follows a succeeded step, under the given flags.
pub open spec fn successor_spec(flags: BuildFlags, step: BuildStep) -> BuildStep {
    match step {
        BuildStep::IndexOutput => if flags.has_sources {
            BuildStep::FetchSources
        } else {
            dependency_step(flags)
        },
        BuildStep::FetchSources => dependency_step(flags),
        BuildStep::InstallEnvironments => BuildStep::WriteBuildScript,
        BuildStep::ResolveDependencies => BuildStep::WriteBuildScript,
        BuildStep::WriteBuildScript => BuildStep::SnapshotBefore,
        BuildStep::SnapshotBefore => BuildStep::RunBuildScript,
        BuildStep::RunBuildScript => BuildStep::SnapshotAfter,
        BuildStep::SnapshotAfter => BuildStep::Package,
        BuildStep::Package => if flags.has_package_content_tests {
            BuildStep::PackageContentTests
        } else {
            after_package_step(flags)
        },
        BuildStep::PackageContentTests => after_package_step(flags),
        BuildStep::CleanBuildDir => BuildStep::ReindexOutput,
        BuildStep::ReindexOutput => BuildStep::MakeTestDir,
        BuildStep::MakeTestDir => if flags.no_test {
            after_tests_step(flags)
        } else {
            BuildStep::RunPackageTests
        },
        BuildStep::RunPackageTests => after_tests_step(flags),
        BuildStep::CleanBuildDirAgain => BuildStep::Finished,
        BuildStep::Finished => BuildStep::Finished,
        BuildStep::Aborted => BuildStep::Aborted,
    }
}

/// The next step of the pipeline: a failure of any live step aborts; a
/// success moves forward; the two terminal steps stay where they are.
pub open spec fn next_step_spec(flags: BuildFlags, step: BuildStep, ok: bool) -> BuildStep {
    match step {
        BuildStep::Finished => BuildStep::Finished,
        BuildStep::Aborted => BuildStep::Aborted,
        _ => if ok {
            successor_spec(flags, step)
        } else {
            BuildStep::Aborted
        },
    }
}

/// Decide the next step from the current one and its outcome.
pub fn next_step(flags: &BuildFlags, step: BuildStep, ok: bool) -> (r: BuildStep)
    ensures
        r == next_step_spec(*flags, step, ok),
{
    match step {
        BuildStep::Finished => BuildStep::Finished,
        BuildStep::Aborted => BuildStep::Aborted,
        _ => {
            if !ok {
                BuildStep::Aborted
            } else {
                match step {
                    BuildStep::IndexOutput => {
                        if flags.has_sources {
                            BuildStep::FetchSources
                        } else if flags.finalized {
                            BuildStep::InstallEnvironments
                        } else {
                            BuildStep::ResolveDependencies
                        }
                    },
                    BuildStep::FetchSources => {
                        if flags.finalized {
                            BuildStep::InstallEnvironments
                        } else {
                            BuildStep::ResolveDependencies
                        }
                    },
                    BuildStep::InstallEnvironments => BuildStep::WriteBuildScript,
                    BuildStep::ResolveDependencies => BuildStep::WriteBuildScript,
                    BuildStep::WriteBuildScript => BuildStep::SnapshotBefore,
                    BuildStep::SnapshotBefore => BuildStep::RunBuildScript,
                    BuildStep::RunBuildScript => BuildStep::SnapshotAfter,
                    BuildStep::SnapshotAfter => BuildStep::Package,
                    BuildStep::Package => {
                        if flags.has_package_content_tests {
                            BuildStep::PackageContentTests
                        } else if flags.no_clean {
                            BuildStep::ReindexOutput
                        } else {
                            BuildStep::CleanBuildDir
                        }
                    },
                    BuildStep::PackageContentTests => {
                        if flags.no_clean {
                            BuildStep::ReindexOutput
                        } else {
                            BuildStep::CleanBuildDir
                        }
                    },
                    BuildStep::CleanBuildDir => BuildStep::ReindexOutput,
                    BuildStep::ReindexOutput => BuildStep::MakeTestDir,
                    BuildStep::MakeTestDir => {
                        if !flags.no_test {
                            BuildStep::RunPackageTests
                        } else if flags.no_clean {
                            BuildStep::Finished
                        } else {
                            BuildStep::CleanBuildDirAgain
                        }
                    },
                    BuildStep::RunPackageTests => {
                        if flags.no_clean {
                            BuildStep::Finished
                        } else {
                            BuildStep::CleanBuildDirAgain
                        }
                    },
                    BuildStep::CleanBuildDirAgain => BuildStep::Finished,
                    BuildStep::Finished => BuildStep::Finished,
                    BuildStep::Aborted => BuildStep::Aborted,
                }
            }
        },
    }
}

/// The steps a run visits from `step` under the given outcomes: the
/// current step, then the trace from its successor.
pub open spec fn pipeline_trace(flags: BuildFlags, step: BuildStep, outcomes: Seq<bool>) -> Seq<
    BuildStep,
>
    decreases outcomes.len(),
{
    if outcomes.len() == 0 {
        seq![step]
    } else {
        seq![step] + pipeline_trace(flags, next_step_spec(flags, step, outcomes[0]), outcomes.skip(1))
    }
}

/// Every transition moves forward: the next step's rank never drops, and
/// it strictly grows from any live step.
pub proof fn lemma_next_step_forward(flags: BuildFlags, step: BuildStep, ok: bool)
    ensures
        step_rank(next_step_spec(flags, step, ok)) >= step_rank(step),
        !(step is Finished) && !(step is Aborted) ==> step_rank(next_step_spec(flags, step, ok))
            > step_rank(step),
{
}

/// A trace holds one step more than it has outcomes.
pub proof fn lemma_trace_len(flags: BuildFlags, step: BuildStep, outcomes: Seq<bool>)
    ensures
        pipeline_trace(flags, step, outcomes).len() == outcomes.len() + 1,
    decreases outcomes.len(),
{
    if outcomes.len() > 0 {
        lemma_trace_len(flags, next_step_spec(flags, step, outcomes[0]), outcomes.skip(1));
    }
}

/// Every step of a trace ranks at least as high as the step it started
/// from: the pipeline never moves backward.
pub proof fn lemma_trace_monotone(flags: BuildFlags, step: BuildStep, outcomes: Seq<bool>)
    ensures
        forall|m: int|
            0 <= m < pipeline_trace(flags, step, outcomes).len() ==> step_rank(
                #[trigger] pipeline_trace(flags, step, outcomes)[m],
            ) >= step_rank(step),
    decreases outcomes.len(),
{
    if outcomes.len() > 0 {
        let next = next_step_spec(flags, step, outcomes[0]);
        lemma_next_step_forward(flags, step, outcomes[0]);
        lemma_trace_monotone(flags, next, outcomes.skip(1));
        assert forall|m: int| 0 <= m < pipeline_trace(flags, step, outcomes).len() implies
            step_rank(#[trigger] pipeline_trace(flags, step, outcomes)[m]) >= step_rank(step) by {
            if m > 0 {
                assert(pipeline_trace(flags, step, outcomes)[m] == pipeline_trace(
                    flags,
                    next,
                    outcomes.skip(1),
                )[m - 1]);
            }
        }
    }
}

/// An aborted pipeline stays aborted: no later step is anything else.
pub proof fn lemma_aborted_stays_aborted(flags: BuildFlags, outcomes: Seq<bool>)
    ensures
        forall|m: int|
            0 <= m < pipeline_trace(flags, BuildStep::Aborted, outcomes).len() ==> #[trigger]
                pipeline_trace(flags, BuildStep::Aborted, outcomes)[m] == BuildStep::Aborted,
    decreases outcomes.len(),
{
    if outcomes.len() > 0 {
        lemma_aborted_stays_aborted(flags, outcomes.skip(1));
        assert forall|m: int|
            0 <= m < pipeline_trace(flags, BuildStep::Aborted, outcomes).len() implies #[trigger]
            pipeline_trace(flags, BuildStep::Aborted, outcomes)[m] == BuildStep::Aborted by {
            if m > 0 {
                assert(pipeline_trace(flags, BuildStep::Aborted, outcomes)[m] == pipeline_trace(
                    flags,
                    BuildStep::Aborted,
                    outcomes.skip(1),
                )[m - 1]);
            }
        }
    }
}

/// A failed build script aborts the pipeline before packaging: when the
/// script step reports failure, no step of the whole run ever packages.
pub proof fn lemma_failed_script_never_packages(
    flags: BuildFlags,
    step: BuildStep,
    outcomes: Seq<bool>,
    k: int,
)
    requires
        0 <= k < outcomes.len(),
        pipeline_trace(flags, step, outcomes)[k] == BuildStep::RunBuildScript,
        !outcomes[k],
    ensures
        forall|m: int|
            0 <= m < pipeline_trace(flags, step, outcomes).len() ==> #[trigger] pipeline_trace(
                flags,
                step,
                outcomes,
            )[m] != BuildStep::Package,
    decreases outcomes.len(),
{
    let trace = pipeline_trace(flags, step, outcomes);
    let next = next_step_spec(flags, step, outcomes[0]);
    let tail = pipeline_trace(flags, next, outcomes.skip(1));
    assert(trace == seq![step] + tail);
    lemma_trace_len(flags, step, outcomes);
    lemma_trace_len(flags, next, outcomes.skip(1));
    lemma_trace_monotone(flags, step, outcomes);
    assert(step_rank(trace[k]) >= step_rank(step));
    assert(step_rank(step) <= step_rank(BuildStep::RunBuildScript));
    if k == 0 {
        assert(step == BuildStep::RunBuildScript);
        assert(next == BuildStep::Aborted);
        lemma_aborted_stays_aborted(flags, outcomes.skip(1));
        assert forall|m: int| 0 <= m < trace.len() implies #[trigger] trace[m]
            != BuildStep::Package by {
            if m > 0 {
                assert(trace[m] == tail[m - 1]);
            }
        }
    } else {
        assert(tail[k - 1] == trace[k]);
        lemma_failed_script_never_packages(flags, next, outcomes.skip(1), k - 1);
        assert forall|m: int| 0 <= m < trace.len() implies #[trigger] trace[m]
            != BuildStep::Package by {
            if m > 0 {
                assert(trace[m] == tail[m - 1]);
            }
        }
    }
}

/// When retention is requested, no step of any run removes the build or
/// test directories: the cleanup steps never appear, whatever happens.
pub proof fn lemma_retention_keeps_directories(
    flags: BuildFlags,
    step: BuildStep,
    outcomes: Seq<bool>,
)
    requires
        flags.no_clean,
        step != BuildStep::CleanBuildDir,
        step != BuildStep::CleanBuildDirAgain,
    ensures
        forall|m: int|
            0 <= m < pipeline_trace(flags, step, outcomes).len() ==> (#[trigger] pipeline_trace(
                flags,
                step,
                outcomes,
            )[m] != BuildStep::CleanBuildDir && pipeline_trace(flags, step, outcomes)[m]
                != BuildStep::CleanBuildDirAgain),
    decreases outcomes.len(),
{
    if outcomes.len() > 0 {
        let next = next_step_spec(flags, step, outcomes[0]);
        let tail = pipeline_trace(flags, next, outcomes.skip(1));
        assert(next != BuildStep::CleanBuildDir && next != BuildStep::CleanBuildDirAgain);
        lemma_retention_keeps_directories(flags, next, outcomes.skip(1));
        assert forall|m: int|
            0 <= m < pipeline_trace(flags, step, outcomes).len() implies (#[trigger]
        pipeline_trace(flags, step, outcomes)[m] != BuildStep::CleanBuildDir && pipeline_trace(
            flags,
            step,
            outcomes,
        )[m] != BuildStep::CleanBuildDirAgain) by {
            if m > 0 {
                assert(pipeline_trace(flags, step, outcomes)[m] == tail[m - 1]);
            }
        }
    }
}

/// A build unit: the immutable recipe, its configuration, and — once the
/// dependency phase ran — the finalized dependencies.  Finalization
/// produces a new snapshot; nothing is mutated in place.
pub struct BuildUnit<R, C, D> {
    /// The recipe description, immutable for the whole run.
    pub recipe: R,
    /// The build configuration.
    pub build_configuration: C,
    /// The finalized dependencies, once resolved.
    pub finalized_dependencies: Option<D>,
}

/// Attach freshly resolved dependencies to a build unit, producing the
/// snapshot the rest of the pipeline is handed.  Finalization happens
/// once: the unit must not already carry finalized dependencies.
pub fn finalize_dependencies<R, C, D>(unit: BuildUnit<R, C, D>, deps: D) -> (r: BuildUnit<R, C, D>)
    requires
        unit.finalized_dependencies is None,
    ensures
        r.recipe == unit.recipe,
        r.build_configuration == unit.build_configuration,
        r.finalized_dependencies == Some(deps),
{
    BuildUnit {
        recipe: unit.recipe,
        build_configuration: unit.build_configuration,
        finalized_dependencies: Some(deps),
    }
}

/// The channel list of a build: the output directory, as the local
/// channel, prepended to the caller's channels in their order.
pub fn prepend_local_channel(output_dir: &str, channels: &Vec<String>) -> (r: Vec<String>)
    ensures
        r.deep_view() == seq![output_dir@] + channels.deep_view(),
{
    let mut r: Vec<String> = Vec::new();
    r.push(String::from_str(output_dir));
    let mut i: usize = 0;
    while i < channels.len()
        invariant
            i <= channels.len(),
            r@.len() == i + 1,
            r@[0]@ == output_dir@,
            forall|k: int| 0 <= k < i ==> r@[k + 1]@ == channels@[k]@,
        decreases channels.len() - i,
    {
        let s = channels[i].clone();
        assert(s@ == channels@[i as int]@);
        r.push(s);
        i += 1;
    }
    proof {
        let dv1 = r.deep_view();
        let dv2 = seq![output_dir@] + channels.deep_view();
        assert forall|k: int| 0 <= k < dv1.len() implies dv1[k] == dv2[k] by {
            assert(dv1[k] == r@[k]@);
            if k > 0 {
                assert(channels.deep_view()[k - 1] == channels@[k - 1]@);
            }
        }
        assert(dv1 =~= dv2);
    }
    r
}

} // verus!
