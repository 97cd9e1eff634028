use shellpad::config::{data_file_path, temp_file_path, MIN_TERMINAL_HEIGHT, MIN_TERMINAL_WIDTH};

#[test]
fn test_data_file_path_ends_with_sets_json() {
    let path = data_file_path("/home/user/.config/shellpad");
    assert!(path.ends_with("sets.json"));
}

#[test]
fn test_temp_file_path_ends_with_tmp() {
    let path = temp_file_path("/home/user/.config/shellpad");
    assert!(path.ends_with(".tmp"));
}

#[test]
fn data_paths_are_inside_the_directory() {
    assert_eq!(data_file_path("/home/user/.config/shellpad"), "/home/user/.config/shellpad/sets.json");
    assert_eq!(temp_file_path("/data/"), "/data/sets.json.tmp");
}

#[test]
fn minimum_terminal_size() {
    assert_eq!(MIN_TERMINAL_WIDTH, 80);
    assert_eq!(MIN_TERMINAL_HEIGHT, 24);
}
