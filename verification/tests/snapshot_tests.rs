use recipe_build::snapshot::new_files;
use recipe_build::snapshot::snapshot_contains;

fn paths(names: &[&str]) -> Vec<String> {
    names.iter().map(|n| String::from(*n)).collect()
}

#[test]
fn created_files_are_new_deleted_and_untouched_files_are_not() {
    // the script creates a and b, deletes c, and leaves d alone
    let before = paths(&["c", "d"]);
    let after = paths(&["a", "b", "d"]);
    assert_eq!(new_files(&after, &before), paths(&["a", "b"]));
}

#[test]
fn diff_against_an_empty_before_snapshot_is_everything() {
    let before = paths(&[]);
    let after = paths(&["lib/libx.so", "bin/x"]);
    assert_eq!(new_files(&after, &before), paths(&["lib/libx.so", "bin/x"]));
}

#[test]
fn diff_of_identical_snapshots_is_empty() {
    let snap = paths(&["a", "b"]);
    assert_eq!(new_files(&snap, &snap), paths(&[]));
}

#[test]
fn diff_is_order_independent_as_a_set() {
    let before = paths(&["x", "y"]);
    let after_one = paths(&["y", "z", "x"]);
    let after_two = paths(&["z", "x", "y"]);
    let mut one = new_files(&after_one, &before);
    let mut two = new_files(&after_two, &before);
    one.sort();
    two.sort();
    assert_eq!(one, two);
    assert_eq!(one, paths(&["z"]));
}

#[test]
fn snapshot_contains_finds_a_path() {
    let snap = paths(&["a", "b"]);
    assert!(snapshot_contains(&snap, &String::from("a")));
    assert!(!snapshot_contains(&snap, &String::from("missing")));
}
