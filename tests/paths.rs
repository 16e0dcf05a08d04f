use eww::error::{ConfigError, NotFoundKind};
use eww::paths::{join, EwwPaths, PathEnv};

fn env() -> PathEnv {
    PathEnv { xdg_config_home: None, xdg_cache_home: None, xdg_runtime_dir: None, home: Some("/home/u".to_string()) }
}

#[test]
fn file_given_for_config_dir_fails() {
    let p = "/home/u/.config/eww/eww.yuck".to_string();
    let err = EwwPaths::check_config_dir(&p, true, true).err().unwrap();
    assert_eq!(err, ConfigError::ConfigNotFound { path: p.clone(), kind: NotFoundKind::FileGivenForDirectory });
    assert_eq!(
        err.message(),
        "Please provide the path to the config directory, not a file within it: /home/u/.config/eww/eww.yuck"
    );
}

#[test]
fn missing_config_dir_fails() {
    let p = "/nowhere".to_string();
    let err = EwwPaths::check_config_dir(&p, false, false).err().unwrap();
    assert_eq!(err, ConfigError::ConfigNotFound { path: p.clone(), kind: NotFoundKind::MissingDirectory });
    assert_eq!(err.message(), "Configuration directory /nowhere does not exist");
    assert_eq!(EwwPaths::check_config_dir(&p, false, true), Ok(()));
}

#[test]
fn paths_from_home() {
    let paths = EwwPaths::from_config_dir("/home/u/.config/eww".to_string(), &env());
    assert_eq!(paths.get_config_dir(), "/home/u/.config/eww");
    assert_eq!(paths.get_log_file(), "/home/u/.cache/eww_L2hvbWUvdS8uY29uZmlnL2V3dw==.log");
    assert_eq!(paths.get_ipc_socket_file(), "/tmp/eww-server_L2hvbWUvdS8uY29uZmlnL2V3dw==");
    assert_eq!(paths.get_yuck_path(), "/home/u/.config/eww/eww.yuck");
    assert_eq!(paths.get_eww_scss_path(), "/home/u/.config/eww/eww.scss");
    assert_eq!(
        paths.to_string(),
        "config-dir: /home/u/.config/eww, ipc-socket: /tmp/eww-server_L2hvbWUvdS8uY29uZmlnL2V3dw==, log-file: /home/u/.cache/eww_L2hvbWUvdS8uY29uZmlnL2V3dw==.log"
    );
}

#[test]
fn paths_from_xdg_variables() {
    let e = PathEnv {
        xdg_config_home: Some("/cfg/".to_string()),
        xdg_cache_home: Some("/cache/".to_string()),
        xdg_runtime_dir: Some("/run/user/1000".to_string()),
        home: None,
    };
    let paths = EwwPaths::from_config_dir("/home/u/.config/eww".to_string(), &e);
    assert_eq!(paths.get_log_file(), "/cache/eww_L2hvbWUvdS8uY29uZmlnL2V3dw==.log");
    assert_eq!(paths.get_ipc_socket_file(), "/run/user/1000/eww-server_L2hvbWUvdS8uY29uZmlnL2V3dw==");
    assert_eq!(EwwPaths::default_config_dir(&e), "/cfg/eww");
}

#[test]
fn default_config_dir_from_home() {
    assert_eq!(EwwPaths::default_config_dir(&env()), "/home/u/.config/eww");
}

#[test]
fn join_paths() {
    assert_eq!(join("/a", "b"), "/a/b");
    assert_eq!(join("/a/", "b"), "/a/b");
    assert_eq!(join("", "b"), "b");
    assert_eq!(join("/", "b"), "/b");
}
