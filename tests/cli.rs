use cai::{join_path, Args};

fn args(marker_dir: &str, name: &str) -> Args {
    Args {
        marker_dir: marker_dir.to_string(),
        marker_file_name: name.to_string(),
        watch_dir: "/watch".to_string(),
        output_dir: "/out".to_string(),
        dry_run: false,
    }
}

#[test]
fn marker_path_joins_dir_and_name() {
    assert_eq!(args("/var/lib/cai", "cai_marker.json").marker_path(), "/var/lib/cai/cai_marker.json");
    assert_eq!(args("/var/lib/cai/", "cai_marker.json").marker_path(), "/var/lib/cai/cai_marker.json");
    assert_eq!(args("", "m.json").marker_path(), "m.json");
    assert_eq!(args("/var", "/etc/m.json").marker_path(), "/etc/m.json");
}

#[test]
fn output_path_joins_name() {
    assert_eq!(args("/m", "x").output_path("book.epub"), "/out/book.epub");
    assert_eq!(join_path("rel/dir", "f"), "rel/dir/f");
}
