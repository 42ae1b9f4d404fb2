use teleop_ui::media::{
    brew_bootstrap_plan, brew_bootstrap_result, brew_install_plan, brew_update_plan,
    media_install_log, media_packages, media_probe_plan, media_start,
};
use teleop_ui::outcome::{BootError, CommandResult};

fn out(success: bool, stdout: &str, stderr: &str) -> CommandResult {
    CommandResult { success, stdout: stdout.to_string(), stderr: stderr.to_string() }
}

#[test]
fn present_toolkit_short_circuits_with_no_install() {
    assert_eq!(media_start(true), Some("gstreamer already present".to_string()));
    assert_eq!(media_start(false), None);
}

#[test]
fn bootstrap_launch_failure_aborts_as_launch_error() {
    let script = Err("spawn failed".to_string());
    match brew_bootstrap_result(&script, false, false, false) {
        Err(BootError::Launch { detail }) => assert_eq!(detail, "spawn failed"),
        other => panic!("expected a launch error, got {:?}", describe(other)),
    }
}

#[test]
fn bootstrap_script_failure_carries_its_output() {
    let script = Ok(out(false, "so", "se"));
    match brew_bootstrap_result(&script, true, true, true) {
        Err(BootError::Operation { detail }) => {
            assert_eq!(detail, "homebrew install failed: sose");
        }
        other => panic!("expected an operation error, got {:?}", describe(other)),
    }
}

#[test]
fn bootstrap_success_yields_the_rechecked_path() {
    let script = Ok(out(true, "", ""));
    match brew_bootstrap_result(&script, false, true, false) {
        Ok(p) => assert_eq!(p, "/usr/local/bin/brew"),
        other => panic!("expected a path, got {:?}", describe(other)),
    }
}

#[test]
fn bootstrap_success_without_brew_is_its_own_failure() {
    let script = Ok(out(true, "", ""));
    match brew_bootstrap_result(&script, false, false, false) {
        Err(BootError::Operation { detail }) => {
            assert_eq!(detail, "brew not found after install");
        }
        other => panic!("expected an operation error, got {:?}", describe(other)),
    }
}

fn describe(r: Result<String, BootError>) -> String {
    match r {
        Ok(s) => s,
        Err(e) => e.describe(),
    }
}

#[test]
fn install_log_keeps_every_attempt_in_order() {
    let update = out(true, "updated\n", "");
    let installs = vec![
        out(true, "one ok\n", ""),
        out(false, "", "two broke\n"),
        out(true, "three ok\n", ""),
    ];
    let log = media_install_log(&update, &installs);
    assert_eq!(log, "updated\none ok\ntwo broke\nthree ok\n");
}

#[test]
fn install_log_with_no_packages_is_just_the_update() {
    let update = out(false, "", "update broke\n");
    let installs: Vec<CommandResult> = Vec::new();
    assert_eq!(media_install_log(&update, &installs), "update broke\n");
}

#[test]
fn media_package_list_is_fixed() {
    let pkgs = media_packages();
    assert_eq!(
        pkgs,
        vec![
            "gstreamer".to_string(),
            "gst-plugins-base".to_string(),
            "gst-plugins-good".to_string(),
            "gst-plugins-bad".to_string(),
            "gst-libav".to_string(),
        ]
    );
}

#[test]
fn media_plans_spell_the_commands() {
    let probe = media_probe_plan();
    assert_eq!(probe.program, "gst-launch-1.0");
    assert_eq!(probe.args, vec!["--version".to_string()]);

    let boot = brew_bootstrap_plan();
    assert_eq!(boot.program, "/bin/bash");
    assert_eq!(boot.args.len(), 2);
    assert_eq!(boot.args[0], "-c");
    assert!(boot.args[1].contains("install.sh"));

    let upd = brew_update_plan("/opt/homebrew/bin/brew");
    assert_eq!(upd.program, "/opt/homebrew/bin/brew");
    assert_eq!(upd.args, vec!["update".to_string()]);

    let inst = brew_install_plan("brew", "gst-libav");
    assert_eq!(inst.program, "brew");
    assert_eq!(inst.args, vec!["install".to_string(), "gst-libav".to_string()]);
}
