use cai::{DiscoverError, FileDiscoverer, FileInfo, Marker, Timestamp, WalkEntry, WalkFailure, WalkItem};

fn file(path: &str, name: &str, secs: Option<i64>) -> WalkItem {
    Ok(WalkEntry {
        path: path.to_string(),
        name: name.to_string(),
        is_dir: false,
        modified: secs.map(|s| Timestamp::new(s, 0)),
    })
}

fn dir(path: &str, name: &str, secs: i64) -> WalkItem {
    Ok(WalkEntry {
        path: path.to_string(),
        name: name.to_string(),
        is_dir: true,
        modified: Some(Timestamp::new(secs, 0)),
    })
}

fn info(path: &str, name: &str) -> FileInfo {
    FileInfo { path: path.to_string(), name: name.to_string() }
}

fn cutoff(secs: i64) -> Marker {
    Marker::at(Timestamp::new(secs, 0))
}

#[test]
fn empty_directory_gives_no_files() {
    let d = FileDiscoverer::new("/watch".to_string(), cutoff(100));
    let walk = vec![dir("/watch", "watch", 1)];
    assert_eq!(d.discover(&walk).unwrap(), Vec::<FileInfo>::new());
    let d = FileDiscoverer::new("/watch".to_string(), Marker::empty());
    assert_eq!(d.discover(&walk).unwrap(), Vec::<FileInfo>::new());
}

#[test]
fn only_newer_file_is_found() {
    let d = FileDiscoverer::new("/watch".to_string(), cutoff(100));
    let walk = vec![
        dir("/watch", "watch", 1),
        file("/watch/new.epub", "new.epub", Some(200)),
        file("/watch/old.epub", "old.epub", Some(50)),
    ];
    assert_eq!(d.discover(&walk).unwrap(), vec![info("/watch/new.epub", "new.epub")]);
}

#[test]
fn no_cutoff_finds_every_file() {
    let d = FileDiscoverer::new("/w".to_string(), Marker::empty());
    let walk = vec![
        dir("/w", "w", 0),
        file("/w/a", "a", Some(-10)),
        dir("/w/sub", "sub", 0),
        file("/w/sub/b", "b", None),
        file("/w/sub/c", "c", Some(5)),
    ];
    assert_eq!(
        d.discover(&walk).unwrap(),
        vec![info("/w/a", "a"), info("/w/sub/b", "b"), info("/w/sub/c", "c")]
    );
}

#[test]
fn cutoff_excludes_equal_and_unknown_times() {
    let d = FileDiscoverer::new("/w".to_string(), cutoff(100));
    let walk = vec![
        file("/w/same", "same", Some(100)),
        file("/w/unknown", "unknown", None),
        file("/w/later", "later", Some(101)),
    ];
    assert_eq!(d.discover(&walk).unwrap(), vec![info("/w/later", "later")]);
}

#[test]
fn old_directories_are_descended_not_returned() {
    let d = FileDiscoverer::new("/w".to_string(), cutoff(100));
    assert!(d.keeps(true, Some(Timestamp::new(1, 0))));
    assert!(d.keeps(true, None));
    assert!(!d.keeps(false, Some(Timestamp::new(1, 0))));
    let walk = vec![
        dir("/w", "w", 1),
        dir("/w/old", "old", 1),
        dir("/w/new", "new", 500),
        file("/w/old/fresh", "fresh", Some(300)),
    ];
    assert_eq!(d.discover(&walk).unwrap(), vec![info("/w/old/fresh", "fresh")]);
}

#[test]
fn unreadable_entry_aborts_discovery() {
    let d = FileDiscoverer::new("/w".to_string(), Marker::empty());
    let walk = vec![
        file("/w/a", "a", Some(1)),
        Err(WalkFailure { reason: "permission denied".to_string() }),
        file("/w/b", "b", Some(2)),
        Err(WalkFailure { reason: "gone".to_string() }),
    ];
    match d.discover(&walk) {
        Err(DiscoverError::FetchEntry { source }) => assert_eq!(source.reason, "permission denied"),
        Ok(_) => panic!("discovery should fail"),
    }
}

#[test]
fn search_dir_is_kept() {
    let d = FileDiscoverer::new("/some/dir".to_string(), Marker::empty());
    assert_eq!(d.search_dir_path(), "/some/dir");
}
