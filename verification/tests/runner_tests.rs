use recipe_build::runner::script_exit_outcome;
use recipe_build::runner::standard_replacements;
use recipe_build::runner::substitute_line;
use recipe_build::runner::Replacement;

#[test]
fn both_prefixes_are_rewritten_in_one_line() {
    let pairs = standard_replacements("/opt/host_env", "/opt/build_env");
    let line = "gcc -I/opt/host_env/include -L/opt/build_env/lib -o /opt/host_env/bin/tool";
    assert_eq!(
        substitute_line(line, &pairs),
        "gcc -I$PREFIX/include -L$BUILD_PREFIX/lib -o $PREFIX/bin/tool"
    );
}

#[test]
fn every_occurrence_in_a_line_is_replaced() {
    let pairs = standard_replacements("/opt/host_env", "/opt/build_env");
    let line = "/opt/host_env /opt/host_env /opt/host_env";
    let out = substitute_line(line, &pairs);
    assert_eq!(out, "$PREFIX $PREFIX $PREFIX");
    assert!(!out.contains("/opt/host_env"));
}

#[test]
fn lines_are_substituted_independently() {
    let pairs = standard_replacements("/opt/host_env", "/opt/build_env");
    let lines = ["first /opt/host_env", "second /opt/build_env", "third untouched"];
    let out: Vec<String> = lines.iter().map(|l| substitute_line(l, &pairs)).collect();
    assert_eq!(out, vec!["first $PREFIX", "second $BUILD_PREFIX", "third untouched"]);
}

#[test]
fn substitutions_leave_inputs_untouched() {
    let pairs = standard_replacements("/opt/host_env", "/opt/build_env");
    let line = String::from("echo /opt/host_env");
    let _ = substitute_line(&line, &pairs);
    assert_eq!(line, "echo /opt/host_env");
    assert_eq!(pairs[0].from, "/opt/host_env");
}

#[test]
fn pairs_apply_in_order() {
    let pairs = vec![
        Replacement { from: String::from("a"), to: String::from("b") },
        Replacement { from: String::from("b"), to: String::from("c") },
    ];
    assert_eq!(substitute_line("a", &pairs), "c");
}

#[test]
fn nonzero_exit_fails_the_build() {
    assert!(script_exit_outcome(true).is_ok());
    assert_eq!(script_exit_outcome(false).unwrap_err(), "Build failed");
}
