use httpcore::config::get_directory;

fn args(list: &[&str]) -> Vec<Vec<u8>> {
    list.iter().map(|s| s.as_bytes().to_vec()).collect()
}

#[test]
fn finds_directory_after_flag() {
    let found = get_directory(&args(&["server", "--directory", "/tmp/files"]));
    assert_eq!(found, Some(b"/tmp/files".to_vec()));
}

#[test]
fn finds_directory_among_other_arguments() {
    let found = get_directory(&args(&["server", "-v", "--directory", "data", "extra"]));
    assert_eq!(found, Some(b"data".to_vec()));
}

#[test]
fn no_flag_means_no_directory() {
    assert_eq!(get_directory(&args(&["server"])), None);
    assert_eq!(get_directory(&args(&["server", "-v"])), None);
}

#[test]
fn flag_without_value_means_no_directory() {
    assert_eq!(get_directory(&args(&["server", "--directory"])), None);
}

#[test]
fn program_name_position_is_not_scanned() {
    assert_eq!(get_directory(&args(&["--directory", "files"])), None);
}
