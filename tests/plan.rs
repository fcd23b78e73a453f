use cai::{plan_copies, CopyAction, FileInfo};

fn info(path: &str, name: &str) -> FileInfo {
    FileInfo { path: path.to_string(), name: name.to_string() }
}

#[test]
fn duplicate_names_copy_only_the_first() {
    let c = vec![info("/w/a/book.epub", "book.epub"), info("/w/b/book.epub", "book.epub"), info("/w/c.epub", "c.epub")];
    let plan = plan_copies(&c, false);
    assert_eq!(plan.actions, vec![CopyAction::Copy, CopyAction::SkipDuplicate, CopyAction::Copy]);
    assert!(plan.write_marker);
}

#[test]
fn dry_run_copies_nothing_and_keeps_marker() {
    let c = vec![info("/w/a", "a"), info("/w/x/a", "a"), info("/w/b", "b")];
    let plan = plan_copies(&c, true);
    assert_eq!(plan.actions, vec![CopyAction::WouldCopy, CopyAction::SkipDuplicate, CopyAction::WouldCopy]);
    assert!(!plan.write_marker);
}

#[test]
fn no_candidates_no_marker() {
    let plan = plan_copies(&Vec::new(), false);
    assert!(plan.actions.is_empty());
    assert!(!plan.write_marker);
    let plan = plan_copies(&Vec::new(), true);
    assert!(!plan.write_marker);
}
