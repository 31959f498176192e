use webview_optimizer::process_table::{is_descendant_of, ProcessTable};

fn table(entries: &[(u32, u32, &str)]) -> ProcessTable {
    let mut t = ProcessTable::new();
    for (pid, parent, name) in entries {
        t.push(*pid, *parent, name.as_bytes().to_vec());
    }
    t
}

#[test]
fn direct_child_is_descendant() {
    let t = table(&[(100, 1, "host.exe"), (200, 100, "msedgewebview2.exe")]);
    assert!(is_descendant_of(&t, 200, 100));
}

#[test]
fn grandchild_is_descendant() {
    let t = table(&[
        (100, 1, "host.exe"),
        (200, 100, "msedgewebview2.exe"),
        (300, 200, "msedgewebview2.exe"),
    ]);
    assert!(is_descendant_of(&t, 300, 100));
}

#[test]
fn ancestor_is_not_descendant_of_child() {
    let t = table(&[(100, 1, "host.exe"), (200, 100, "msedgewebview2.exe")]);
    assert!(!is_descendant_of(&t, 100, 200));
}

#[test]
fn unknown_pid_is_not_descendant() {
    let t = table(&[(100, 1, "host.exe")]);
    assert!(!is_descendant_of(&t, 999, 100));
}

#[test]
fn pid_zero_is_not_descendant() {
    let t = table(&[(100, 1, "host.exe")]);
    assert!(!is_descendant_of(&t, 0, 100));
}

#[test]
fn chain_ending_at_unknown_parent_is_not_descendant() {
    // 300's chain is 300 -> 250 -> 7, and 7 has no record.
    let t = table(&[(100, 1, "host.exe"), (250, 7, "other.exe"), (300, 250, "leaf.exe")]);
    assert!(!is_descendant_of(&t, 300, 100));
}

#[test]
fn two_cycle_terminates_and_returns_false() {
    // A corrupted table: 300's parent is 400 and 400's parent is 300.
    let t = table(&[(100, 1, "host.exe"), (300, 400, "a.exe"), (400, 300, "b.exe")]);
    assert!(!is_descendant_of(&t, 300, 100));
    assert!(!is_descendant_of(&t, 400, 100));
}

#[test]
fn self_cycle_terminates_and_returns_false() {
    let t = table(&[(300, 300, "self.exe")]);
    assert!(!is_descendant_of(&t, 300, 100));
}

#[test]
fn cycle_still_finds_ancestor_on_the_way_in() {
    // 500 -> 300 <-> 400: the walk from 500 meets 300's parent 400.
    let t = table(&[(300, 400, "a.exe"), (400, 300, "b.exe"), (500, 300, "c.exe")]);
    assert!(is_descendant_of(&t, 500, 300));
    assert!(is_descendant_of(&t, 500, 400));
    assert!(!is_descendant_of(&t, 500, 100));
}

#[test]
fn first_matching_record_decides_parent() {
    // Duplicate pid 200: the first record (parent 100) wins.
    let t = table(&[(200, 100, "dup.exe"), (200, 999, "dup.exe"), (100, 1, "host.exe")]);
    assert!(is_descendant_of(&t, 200, 100));
    assert!(!is_descendant_of(&t, 200, 999));
}

#[test]
fn empty_table_has_no_descendants() {
    let t = ProcessTable::new();
    assert!(!is_descendant_of(&t, 200, 100));
    assert_eq!(t.len(), 0);
}
