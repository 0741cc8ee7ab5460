use crates_tui::config::{
    choose_dir, default_color_file, default_config_dir, default_config_file, default_data_dir,
    get_default_color_file, get_default_config_path, get_default_data_dir, join_path,
};

#[test]
fn override_directory_wins() {
    let home = Some("/tmp/ct".to_string());
    assert_eq!(default_config_dir(home.clone()), "/tmp/ct");
    assert_eq!(default_config_file(home.clone()), "/tmp/ct/config.toml");
    assert_eq!(default_color_file(home.clone()), "/tmp/ct/color.yaml");
    assert_eq!(get_default_config_path(home.clone()), "/tmp/ct/config.toml");
    assert_eq!(get_default_color_file(home), "/tmp/ct/color.yaml");
    assert_eq!(default_data_dir(Some("/var/ct".to_string())), "/var/ct");
    assert_eq!(get_default_data_dir(Some("/var/ct".to_string())), "/var/ct");
}

#[test]
fn directory_preference_order() {
    assert_eq!(choose_dir(None, Some("/p".to_string()), "./.config"), "/p");
    assert_eq!(choose_dir(None, None, "./.config"), "./.config");
    assert_eq!(choose_dir(Some("/o".to_string()), Some("/p".to_string()), "./.config"), "/o");
    assert_eq!(join_path("./.data", "x.log"), "./.data/x.log");
}

#[test]
fn default_files_end_with_their_names() {
    assert!(default_config_file(None).ends_with("/config.toml"));
    assert!(default_color_file(None).ends_with("/color.yaml"));
}
