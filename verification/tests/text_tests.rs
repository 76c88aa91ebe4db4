use recipe_build::text::base_name;
use recipe_build::text::clone_strings;
use recipe_build::text::contains_char;
use recipe_build::text::ends_with;
use recipe_build::text::join_newline;
use recipe_build::text::match_at;
use recipe_build::text::path_join;
use recipe_build::text::replace_all;

#[test]
fn replace_all_replaces_every_occurrence() {
    let line = "/opt/host/bin:/opt/host/lib";
    assert_eq!(replace_all(line, "/opt/host", "$PREFIX"), "$PREFIX/bin:$PREFIX/lib");
}

#[test]
fn replace_all_no_occurrence_is_identity() {
    assert_eq!(replace_all("nothing to see", "/opt/host", "$PREFIX"), "nothing to see");
}

#[test]
fn replace_all_takes_occurrences_leftmost_without_overlap() {
    assert_eq!(replace_all("aaa", "aa", "x"), "xa");
    assert_eq!(replace_all("abb", "ab", "a"), "ab");
}

#[test]
fn replace_all_empty_pattern_is_identity() {
    assert_eq!(replace_all("abc", "", "x"), "abc");
}

#[test]
fn replace_all_on_empty_string() {
    assert_eq!(replace_all("", "aa", "x"), "");
}

#[test]
fn base_name_takes_the_final_component() {
    assert_eq!(base_name("/a/b/c.tar.gz"), "c.tar.gz");
    assert_eq!(base_name("plain"), "plain");
    assert_eq!(base_name("dir/"), "");
    assert_eq!(base_name(""), "");
}

#[test]
fn ends_with_checks_the_suffix() {
    assert!(ends_with("archive.tar.gz", "tar.gz"));
    assert!(!ends_with("archive.tar.gz", "zip"));
    assert!(!ends_with("gz", "tar.gz"));
    assert!(ends_with("anything", ""));
}

#[test]
fn contains_char_finds_a_newline() {
    assert!(contains_char("a\nb", '\n'));
    assert!(!contains_char("ab", '\n'));
}

#[test]
fn match_at_compares_at_a_position() {
    assert!(match_at("abcdef", "cde", 2));
    assert!(!match_at("abcdef", "cde", 1));
}

#[test]
fn path_join_inserts_one_separator() {
    assert_eq!(path_join("/work", "sub"), "/work/sub");
}

#[test]
fn join_newline_joins_without_trailing_newline() {
    let parts = vec![
        String::from("echo one"),
        String::from("echo two"),
        String::from("echo three"),
    ];
    assert_eq!(join_newline(&parts), "echo one\necho two\necho three");
    assert_eq!(join_newline(&vec![]), "");
    assert_eq!(join_newline(&vec![String::from("only")]), "only");
}

#[test]
fn clone_strings_copies_value_for_value() {
    let v = vec![String::from("a"), String::from("b")];
    assert_eq!(clone_strings(&v), v);
}
