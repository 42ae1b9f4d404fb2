use teleop_ui::offline::{already_done_sentinel, ArtifactStep, OfflineRun, OfflineStart};
use teleop_ui::outcome::CommandResult;

fn names(v: &[&str]) -> Vec<String> {
    v.iter().map(|s| s.to_string()).collect()
}

fn out(success: bool, stdout: &str, stderr: &str) -> CommandResult {
    CommandResult { success, stdout: stdout.to_string(), stderr: stderr.to_string() }
}

#[test]
fn marker_present_short_circuits_to_sentinel() {
    match OfflineRun::start(true) {
        OfflineStart::AlreadyDone => {}
        OfflineStart::Fresh(_) => panic!("a present marker must end the pass at once"),
    }
    assert_eq!(already_done_sentinel(), "already_bootstrapped");
}

#[test]
fn second_invocation_with_marker_does_no_work() {
    // First pass: marker absent, runs through and the caller writes the
    // marker on finish. Second pass: marker present, nothing but the
    // sentinel.
    let run = match OfflineRun::start(false) {
        OfflineStart::Fresh(r) => r,
        OfflineStart::AlreadyDone => panic!("no marker yet"),
    };
    let mut run = run;
    let none: Vec<String> = Vec::new();
    run.mesh_step(true, &none);
    run.media_step(true, &none);
    run.venv_step(true);
    run.wheel_step(&names(&["pyzmq-26.whl"]));
    let _report = run.finish();
    match OfflineRun::start(true) {
        OfflineStart::AlreadyDone => {}
        OfflineStart::Fresh(_) => panic!("second call must be a no-op"),
    }
}

#[test]
fn present_probe_short_circuits_install_step() {
    let mut run = match OfflineRun::start(false) {
        OfflineStart::Fresh(r) => r,
        OfflineStart::AlreadyDone => panic!(),
    };
    let listing = names(&["TailscaleSetup.pkg"]);
    let step = run.mesh_step(true, &listing);
    assert_eq!(step, ArtifactStep::AlreadyPresent);
    let step = run.media_step(true, &names(&["gstreamer-1.0.pkg"]));
    assert_eq!(step, ArtifactStep::AlreadyPresent);
    let create = run.venv_step(true);
    assert!(!create);
    run.wheel_step(&names(&["pyzmq-26.whl"]));
    // Nothing was installed; the short-circuited steps logged themselves
    // as already present.
    assert_eq!(run.finish(), "tailscale already present\ngstreamer already present\n");
}

#[test]
fn absent_artifacts_are_logged_skips_not_errors() {
    let mut run = match OfflineRun::start(false) {
        OfflineStart::Fresh(r) => r,
        OfflineStart::AlreadyDone => panic!(),
    };
    let empty: Vec<String> = Vec::new();
    assert_eq!(run.mesh_step(false, &empty), ArtifactStep::NotBundled);
    assert_eq!(run.media_step(false, &empty), ArtifactStep::NotBundled);
    assert!(run.venv_step(false));
    assert_eq!(run.wheel_step(&empty), None);
    assert_eq!(
        run.finish(),
        "tailscale pkg not bundled\ngstreamer pkg not bundled\npyzmq wheel not bundled\n"
    );
}

#[test]
fn full_offline_pass_accumulates_outputs_in_order() {
    let mut run = match OfflineRun::start(false) {
        OfflineStart::Fresh(r) => r,
        OfflineStart::AlreadyDone => panic!(),
    };
    let mesh_listing = names(&["notes.txt", "TailscaleSetup.pkg"]);
    match run.mesh_step(false, &mesh_listing) {
        ArtifactStep::Install { index } => {
            assert_eq!(index, 1);
            run.append_output(&out(true, "mesh installed\n", ""));
        }
        other => panic!("expected an install decision, got {:?}", other),
    }
    let media_listing = names(&["gstreamer-1.0.pkg"]);
    match run.media_step(false, &media_listing) {
        ArtifactStep::Install { index } => {
            assert_eq!(index, 0);
            run.append_output(&out(false, "", "media failed\n"));
        }
        other => panic!("expected an install decision, got {:?}", other),
    }
    if run.venv_step(false) {
        run.append_output(&out(true, "venv made\n", ""));
    }
    let wheels = names(&["pyzmq-26.0-cp312.whl"]);
    match run.wheel_step(&wheels) {
        Some(i) => {
            assert_eq!(i, 0);
            run.append_output(&out(true, "wheel in\n", ""));
        }
        None => panic!("wheel is bundled"),
    }
    assert_eq!(run.finish(), "mesh installed\nmedia failed\nvenv made\nwheel in\n");
}

#[test]
fn rerun_after_crash_redoes_only_unmet_steps() {
    // First run: everything installed except the wheel step; the run is
    // dropped before finish, as a crash before the marker write would
    // leave things.
    let mut first = match OfflineRun::start(false) {
        OfflineStart::Fresh(r) => r,
        OfflineStart::AlreadyDone => panic!(),
    };
    first.mesh_step(false, &names(&["TailscaleSetup.pkg"]));
    first.media_step(false, &names(&["gstreamer-1.0.pkg"]));
    first.venv_step(false);
    drop(first);

    // The marker is still absent, so the next invocation starts a fresh
    // full pass; the steps whose resources now exist short-circuit.
    let mut second = match OfflineRun::start(false) {
        OfflineStart::Fresh(r) => r,
        OfflineStart::AlreadyDone => panic!("marker must still be absent"),
    };
    let none: Vec<String> = Vec::new();
    assert_eq!(second.mesh_step(true, &none), ArtifactStep::AlreadyPresent);
    assert_eq!(second.media_step(true, &none), ArtifactStep::AlreadyPresent);
    assert!(!second.venv_step(true));
    match second.wheel_step(&names(&["pyzmq-26.whl"])) {
        Some(0) => {}
        other => panic!("wheel still wanted, got {:?}", other),
    }
    // finish is reachable only now: the marker write is the last action.
    let _report = second.finish();
}
