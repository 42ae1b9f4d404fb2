use teleop_ui::paths::{
    brew_path, current_app_resources_dir, export_dest_path, log_file_path, logs_dir_path,
    marker_path, parent_of, resource_subdir, support_dir_path, venv_path, venv_pip_path,
};

#[test]
fn log_paths_hang_off_home() {
    assert_eq!(logs_dir_path("/Users/me"), "/Users/me/Library/Logs/teleop-ui");
    assert_eq!(
        log_file_path("/Users/me"),
        "/Users/me/Library/Logs/teleop-ui/new_user_debug.log"
    );
}

#[test]
fn support_layout_is_fixed() {
    let support = support_dir_path("/Users/me");
    assert_eq!(support, "/Users/me/Library/Application Support/Teleop");
    assert_eq!(
        marker_path(&support),
        "/Users/me/Library/Application Support/Teleop/bootstrap_done"
    );
    let venv = venv_path(&support);
    assert_eq!(venv, "/Users/me/Library/Application Support/Teleop/venv");
    assert_eq!(
        venv_pip_path(&venv),
        "/Users/me/Library/Application Support/Teleop/venv/bin/pip"
    );
}

#[test]
fn resource_subdirs_sit_under_resources() {
    assert_eq!(
        resource_subdir("/Applications/My.app/Contents/Resources", "tailscale"),
        "/Applications/My.app/Contents/Resources/resources/tailscale"
    );
    assert_eq!(
        resource_subdir("/r", "python-wheels"),
        "/r/resources/python-wheels"
    );
}

#[test]
fn export_path_is_timestamped_on_the_desktop() {
    assert_eq!(
        export_dest_path("/Users/me", "20240102-030405"),
        "/Users/me/Desktop/new_user_debug_20240102-030405.log"
    );
}

#[test]
fn brew_is_preferred_in_fixed_order() {
    assert_eq!(brew_path(true, true, true), Some("/opt/homebrew/bin/brew".to_string()));
    assert_eq!(brew_path(false, true, true), Some("/usr/local/bin/brew".to_string()));
    assert_eq!(brew_path(false, false, true), Some("brew".to_string()));
    assert_eq!(brew_path(false, false, false), None);
}

#[test]
fn resources_dir_is_two_parents_up() {
    let r = current_app_resources_dir("/Applications/My.app/Contents/MacOS/teleop-ui");
    assert_eq!(r, Ok("/Applications/My.app/Contents/Resources".to_string()));
}

#[test]
fn shallow_exe_paths_are_reported() {
    assert_eq!(current_app_resources_dir("teleop-ui"), Err("no parent".to_string()));
    assert_eq!(current_app_resources_dir("/teleop-ui"), Err("no contents".to_string()));
}

#[test]
fn parent_strips_the_last_component() {
    assert_eq!(parent_of("/a/b/c"), Some("/a/b".to_string()));
    assert_eq!(parent_of("/a"), Some("".to_string()));
    assert_eq!(parent_of("plain"), None);
}
