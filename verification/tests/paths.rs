use std::path::{Path, PathBuf};

#[test]
fn daemon_info_stands_in_the_data_directory() {
    let paths = frun::paths_in(&PathBuf::from("/home/u/.local/share/backrunner"));
    assert_eq!(
        paths.daemon_info_path.as_path(),
        Path::new("/home/u/.local/share/backrunner/daemon_info.json")
    );
}

#[test]
fn paths_are_none_only_without_a_directory() {
    assert!(frun::paths_found(None).is_none());
    let found = frun::paths_found(Some(PathBuf::from("/data")));
    assert_eq!(
        found.map(|paths| paths.daemon_info_path),
        Some(PathBuf::from("/data/daemon_info.json"))
    );
}

#[test]
fn paths_are_those_of_the_project() {
    let expected = directories::ProjectDirs::from("dev", "false_star", "backrunner")
        .map(|dirs| dirs.data_dir().join("daemon_info.json"));
    assert_eq!(frun::get_paths().map(|paths| paths.daemon_info_path), expected);
}
