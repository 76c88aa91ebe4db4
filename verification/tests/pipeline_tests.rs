use recipe_build::pipeline::finalize_dependencies;
use recipe_build::pipeline::Directories;
use recipe_build::pipeline::next_step;
use recipe_build::pipeline::prepend_local_channel;
use recipe_build::pipeline::BuildFlags;
use recipe_build::pipeline::BuildStep;
use recipe_build::pipeline::BuildUnit;

fn flags() -> BuildFlags {
    BuildFlags {
        has_sources: true,
        finalized: false,
        has_package_content_tests: true,
        no_clean: false,
        no_test: false,
    }
}

fn run_to_end(flags: BuildFlags, fail_at: Option<BuildStep>) -> Vec<BuildStep> {
    let mut step = BuildStep::IndexOutput;
    let mut trace = vec![step];
    for _ in 0..32 {
        if step == BuildStep::Finished || step == BuildStep::Aborted {
            break;
        }
        let ok = Some(step) != fail_at;
        step = next_step(&flags, step, ok);
        trace.push(step);
    }
    trace
}

#[test]
fn the_full_pipeline_runs_every_step_in_order() {
    assert_eq!(
        run_to_end(flags(), None),
        vec![
            BuildStep::IndexOutput,
            BuildStep::FetchSources,
            BuildStep::ResolveDependencies,
            BuildStep::WriteBuildScript,
            BuildStep::SnapshotBefore,
            BuildStep::RunBuildScript,
            BuildStep::SnapshotAfter,
            BuildStep::Package,
            BuildStep::PackageContentTests,
            BuildStep::CleanBuildDir,
            BuildStep::ReindexOutput,
            BuildStep::MakeTestDir,
            BuildStep::RunPackageTests,
            BuildStep::CleanBuildDirAgain,
            BuildStep::Finished,
        ]
    );
}

#[test]
fn flags_skip_their_steps() {
    let f = BuildFlags {
        has_sources: false,
        finalized: true,
        has_package_content_tests: false,
        no_clean: true,
        no_test: true,
    };
    assert_eq!(
        run_to_end(f, None),
        vec![
            BuildStep::IndexOutput,
            BuildStep::InstallEnvironments,
            BuildStep::WriteBuildScript,
            BuildStep::SnapshotBefore,
            BuildStep::RunBuildScript,
            BuildStep::SnapshotAfter,
            BuildStep::Package,
            BuildStep::ReindexOutput,
            BuildStep::MakeTestDir,
            BuildStep::Finished,
        ]
    );
}

#[test]
fn a_failed_script_aborts_before_packaging() {
    let trace = run_to_end(flags(), Some(BuildStep::RunBuildScript));
    assert!(trace.contains(&BuildStep::Aborted));
    assert!(!trace.contains(&BuildStep::Package));
    assert_eq!(*trace.last().unwrap(), BuildStep::Aborted);
}

#[test]
fn retention_skips_every_cleanup_even_on_failure() {
    let mut f = flags();
    f.no_clean = true;
    let ok_trace = run_to_end(f, None);
    assert!(!ok_trace.contains(&BuildStep::CleanBuildDir));
    assert!(!ok_trace.contains(&BuildStep::CleanBuildDirAgain));
    let failed_trace = run_to_end(f, Some(BuildStep::RunBuildScript));
    assert!(!failed_trace.contains(&BuildStep::CleanBuildDir));
    assert!(!failed_trace.contains(&BuildStep::CleanBuildDirAgain));
}

#[test]
fn any_failure_aborts_the_rest() {
    let trace = run_to_end(flags(), Some(BuildStep::FetchSources));
    assert_eq!(
        trace,
        vec![BuildStep::IndexOutput, BuildStep::FetchSources, BuildStep::Aborted]
    );
}

#[test]
fn finalization_attaches_dependencies_once() {
    let unit: BuildUnit<&str, &str, Vec<String>> = BuildUnit {
        recipe: "recipe",
        build_configuration: "config",
        finalized_dependencies: None,
    };
    let done = finalize_dependencies(unit, vec![String::from("dep=1.0")]);
    assert_eq!(done.recipe, "recipe");
    assert_eq!(done.build_configuration, "config");
    assert_eq!(done.finalized_dependencies, Some(vec![String::from("dep=1.0")]));
}

#[test]
fn the_directory_layout_keeps_its_invariant() {
    let d = Directories::new("/recipe", "/work", "bld", "/output", "/host", "/build").unwrap();
    assert_eq!(d.build_dir, "/work/bld");
    assert!(d.check());
    // an install prefix that collides with the output directory is refused
    assert!(Directories::new("/recipe", "/work", "bld", "/output", "/output", "/build").is_none());
    assert!(Directories::new("/recipe", "/work", "bld", "/output", "/host", "/output").is_none());
    // a hand-made layout whose build directory escapes the work directory fails the invariant
    let broken = Directories { build_dir: String::from("/elsewhere/bld"), ..d };
    assert!(!broken.check());
}

#[test]
fn the_local_channel_comes_first() {
    let channels = vec![String::from("main"), String::from("extra")];
    assert_eq!(
        prepend_local_channel("/output", &channels),
        vec![String::from("/output"), String::from("main"), String::from("extra")]
    );
}
