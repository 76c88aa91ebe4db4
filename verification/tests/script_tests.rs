use recipe_build::script::bash_preamble;
use recipe_build::script::build_script_path;
use recipe_build::script::cmd_preamble;
use recipe_build::script::default_extension;
use recipe_build::script::ensure_extension;
use recipe_build::script::env_script_path;
use recipe_build::script::full_script;
use recipe_build::script::has_extension;
use recipe_build::script::interpreter_command;
use recipe_build::script::interpreter_warning;
use recipe_build::script::resolve_script_body;
use recipe_build::script::script_read_request;
use recipe_build::script::ReadOutcome;
use recipe_build::script::ScriptContent;
use recipe_build::script::ScriptError;
use recipe_build::script::TargetFamily;

#[test]
fn extensions_follow_the_target_family() {
    assert_eq!(default_extension(TargetFamily::Unix), "sh");
    assert_eq!(default_extension(TargetFamily::Windows), "bat");
}

#[test]
fn default_form_reads_the_conventional_file() {
    let req = script_read_request(&ScriptContent::Default, "/recipe", "sh");
    assert_eq!(req, Some(String::from("/recipe/build.sh")));
    let req = script_read_request(&ScriptContent::Default, "/recipe", "bat");
    assert_eq!(req, Some(String::from("/recipe/build.bat")));
}

#[test]
fn explicit_path_gets_the_default_extension_only_when_it_has_none() {
    let req = script_read_request(
        &ScriptContent::ExplicitPath(String::from("install")),
        "/recipe",
        "sh",
    );
    assert_eq!(req, Some(String::from("/recipe/install.sh")));
    let req = script_read_request(
        &ScriptContent::ExplicitPath(String::from("install.bat")),
        "/recipe",
        "sh",
    );
    assert_eq!(req, Some(String::from("/recipe/install.bat")));
}

#[test]
fn inline_command_with_newline_is_never_treated_as_a_path() {
    let content = ScriptContent::CommandOrPath(String::from("echo hi\nrun thing.sh"));
    assert_eq!(script_read_request(&content, "/recipe", "sh"), None);
    let body = resolve_script_body(&content, "", &ReadOutcome::NotFound).unwrap();
    assert_eq!(body, "echo hi\nrun thing.sh");
}

#[test]
fn single_line_script_name_is_tried_as_a_path() {
    let content = ScriptContent::CommandOrPath(String::from("build_all.sh"));
    assert_eq!(
        script_read_request(&content, "/recipe", "sh"),
        Some(String::from("/recipe/build_all.sh"))
    );
    let body = resolve_script_body(
        &content,
        "/recipe/build_all.sh",
        &ReadOutcome::Found(String::from("echo from file")),
    )
    .unwrap();
    assert_eq!(body, "echo from file");
}

#[test]
fn missing_path_like_string_falls_back_to_verbatim_text() {
    let content = ScriptContent::CommandOrPath(String::from("run_me.sh"));
    let body = resolve_script_body(&content, "/recipe/run_me.sh", &ReadOutcome::NotFound).unwrap();
    assert_eq!(body, "run_me.sh");
}

#[test]
fn default_form_with_no_script_file_is_an_empty_script() {
    let body =
        resolve_script_body(&ScriptContent::Default, "/recipe/build.sh", &ReadOutcome::NotFound)
            .unwrap();
    assert_eq!(body, "");
}

#[test]
fn explicit_path_missing_is_a_hard_error() {
    let err = resolve_script_body(
        &ScriptContent::ExplicitPath(String::from("install.sh")),
        "/recipe/install.sh",
        &ReadOutcome::NotFound,
    )
    .unwrap_err();
    assert_eq!(err, ScriptError::NotFound(String::from("/recipe/install.sh")));
    assert_eq!(err.message(), "recipe file \"/recipe/install.sh\" does not exist");
}

#[test]
fn other_read_failures_propagate() {
    let err = resolve_script_body(
        &ScriptContent::Default,
        "/recipe/build.sh",
        &ReadOutcome::Failed(String::from("permission denied")),
    )
    .unwrap_err();
    assert_eq!(err, ScriptError::Io(String::from("permission denied")));
}

#[test]
fn command_list_is_newline_joined() {
    let content = ScriptContent::CommandList(vec![
        String::from("configure"),
        String::from("make"),
        String::from("make install"),
    ]);
    assert_eq!(script_read_request(&content, "/recipe", "sh"), None);
    let body = resolve_script_body(&content, "", &ReadOutcome::NotFound).unwrap();
    assert_eq!(body, "configure\nmake\nmake install");
}

#[test]
fn single_command_is_used_as_is() {
    let content = ScriptContent::SingleCommand(String::from("make install"));
    let body = resolve_script_body(&content, "", &ReadOutcome::NotFound).unwrap();
    assert_eq!(body, "make install");
}

#[test]
fn has_extension_looks_at_the_final_component() {
    assert!(has_extension("a/b/c.sh"));
    assert!(!has_extension("a.b/c"));
    assert!(!has_extension(".hidden"));
    assert!(has_extension(".hidden.sh"));
}

#[test]
fn ensure_extension_appends_a_dot_and_the_extension() {
    assert_eq!(ensure_extension("install", "sh"), "install.sh");
    assert_eq!(ensure_extension("install.bat", "sh"), "install.bat");
}

#[test]
fn bash_preamble_substitutes_the_activation_script_path() {
    let p = bash_preamble("/work/build_env.sh");
    assert_eq!(
        p,
        "\n## Start of bash preamble\nif [ -z ${CONDA_BUILD+x} ]; then\n    source /work/build_env.sh\nfi\n# enable debug mode for the rest of the script\nset -x\n## End of preamble\n"
    );
    assert!(!p.contains("((script_path))"));
}

#[test]
fn cmd_preamble_calls_the_activation_script_conditionally() {
    assert_eq!(
        cmd_preamble("/work/build_env.bat"),
        "IF \"%CONDA_BUILD%\" == \"\" (\n    call /work/build_env.bat\n)"
    );
}

#[test]
fn full_script_is_preamble_then_body() {
    assert_eq!(full_script("preamble", "body"), "preamble\nbody");
}

#[test]
fn script_paths_follow_the_target_family() {
    assert_eq!(env_script_path("/work", TargetFamily::Unix), "/work/build_env.sh");
    assert_eq!(env_script_path("/work", TargetFamily::Windows), "/work/build_env.bat");
    assert_eq!(build_script_path("/work", TargetFamily::Unix), "/work/conda_build.sh");
    assert_eq!(build_script_path("/work", TargetFamily::Windows), "/work/conda_build.bat");
}

#[test]
fn interpreter_matches_the_platform_branch() {
    let (cmd, args) = interpreter_command(TargetFamily::Unix, "/work/conda_build.sh");
    assert_eq!(cmd, "/bin/bash");
    assert_eq!(args, vec![String::from("-e"), String::from("/work/conda_build.sh")]);
    let (cmd, args) = interpreter_command(TargetFamily::Windows, "/work/conda_build.bat");
    assert_eq!(cmd, "cmd.exe");
    assert_eq!(
        args,
        vec![String::from("/d"), String::from("/c"), String::from("/work/conda_build.bat")]
    );
}

#[test]
fn declared_interpreter_is_warned_about_not_rejected() {
    let w = interpreter_warning(&Some(String::from("python")));
    assert_eq!(w, Some(String::from("build.script.interpreter is not supported yet")));
    assert_eq!(interpreter_warning(&None), None);
}
