use nono_app::config::{
    config_file_path_from, config_file_path_in, load_app_config_from, ConfigRead,
};

#[test]
fn path_is_dir_plus_fixed_suffix() {
    let p = config_file_path_in(&"/home/u/.config".to_string());
    assert_eq!(p, "/home/u/.config/nono-app/app_config.json".to_string());
}

#[test]
fn path_resolution_fails_without_a_config_dir() {
    let r = config_file_path_from(None);
    assert_eq!(r.err().unwrap(), "couldn't find user config directory".to_string());
}

#[test]
fn path_resolution_uses_the_given_dir() {
    let r = config_file_path_from(Some("/etc/xdg".to_string()));
    assert_eq!(r.unwrap(), "/etc/xdg/nono-app/app_config.json".to_string());
}

#[test]
fn fresh_environment_loads_the_empty_list() {
    let r = load_app_config_from(ConfigRead::Missing);
    assert_eq!(r.unwrap(), "[]".to_string());
}

#[test]
fn saved_text_comes_back_verbatim() {
    let r = load_app_config_from(ConfigRead::Contents("test-data".to_string()));
    assert_eq!(r.unwrap(), "test-data".to_string());
}

#[test]
fn read_failure_is_surfaced() {
    let r = load_app_config_from(ConfigRead::Failure("disk on fire".to_string()));
    assert_eq!(r.err().unwrap(), "disk on fire".to_string());
}
