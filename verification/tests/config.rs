use cbar::config::{check_config, config_path};
use cbar::error::Error;

#[test]
fn default_path() {
    assert_eq!(config_path("/home/u", None), "/home/u/.config/cbar/main.lua");
    assert_eq!(config_path("/home/u/", None), "/home/u/.config/cbar/main.lua");
    assert_eq!(config_path("", None), ".config/cbar/main.lua");
}

#[test]
fn relative_path_goes_below_the_config_directory() {
    assert_eq!(config_path("/home/u", Some("bar.lua")), "/home/u/.config/cbar/bar.lua");
    assert_eq!(config_path("/home/u", Some("a/b.lua")), "/home/u/.config/cbar/a/b.lua");
    assert_eq!(config_path("/", Some("bar.lua")), "/.config/cbar/bar.lua");
    assert_eq!(config_path("/home/u", Some("")), "/home/u/.config/cbar/");
}

#[test]
fn absolute_path_is_kept() {
    assert_eq!(config_path("/home/u", Some("/etc/cbar.lua")), "/etc/cbar.lua");
    assert_eq!(config_path("", Some("/")), "/");
}

#[test]
fn same_as_the_standard_path_type() {
    for (home, given) in [("/home/u", "bar.lua"), ("/home/u/", "x/y"), ("/", "z"), ("/h", "")] {
        let mut expected = std::path::PathBuf::from(home);
        expected.push(".config/cbar");
        expected.push(given);
        assert_eq!(config_path(home, Some(given)), expected.to_str().unwrap());
    }
}

#[test]
fn config_has_to_exist_and_be_a_file() {
    assert_eq!(check_config(true, true), Ok(()));
    assert_eq!(check_config(false, false), Err(Error::ConfigFileDoesNotExist));
    assert_eq!(check_config(false, true), Err(Error::ConfigFileDoesNotExist));
    assert_eq!(check_config(true, false), Err(Error::ConfigFileNotAFile));
}
