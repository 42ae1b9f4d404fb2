use teleop_ui::textscan::{ascii_lower, contains_ci, find_pkg_in, find_wheel_in, has_ext, starts_with_ci};

fn names(v: &[&str]) -> Vec<String> {
    v.iter().map(|s| s.to_string()).collect()
}

#[test]
fn pkg_scan_is_case_insensitive_substring_match() {
    let listing = names(&["TailscaleSetup.pkg", "notes.txt", "gstreamer-1.0.pkg"]);
    let r = find_pkg_in(&listing, "tailscale");
    assert_eq!(r, Some(0));
    assert_eq!(listing[r.unwrap()], "TailscaleSetup.pkg");
}

#[test]
fn pkg_scan_first_match_wins() {
    let listing = names(&["a.txt", "Gstreamer-old.pkg", "gstreamer-new.pkg"]);
    assert_eq!(find_pkg_in(&listing, "gstreamer"), Some(1));
}

#[test]
fn pkg_scan_empty_listing_finds_nothing() {
    let listing: Vec<String> = Vec::new();
    assert_eq!(find_pkg_in(&listing, "tailscale"), None);
}

#[test]
fn pkg_scan_ignores_other_extensions() {
    let listing = names(&["tailscale.whl", "tailscale.pkg.txt", "tailscale"]);
    assert_eq!(find_pkg_in(&listing, "tailscale"), None);
}

#[test]
fn pkg_scan_matches_substring_not_only_prefix() {
    let listing = names(&["Setup-TAILSCALE-1.2.pkg"]);
    assert_eq!(find_pkg_in(&listing, "tailscale"), Some(0));
}

#[test]
fn wheel_scan_wants_prefix() {
    let listing = names(&["not-pyzmq.whl", "PyZMQ-26.0-cp312.whl", "pyzmq.pkg"]);
    assert_eq!(find_wheel_in(&listing, "pyzmq"), Some(1));
}

#[test]
fn wheel_scan_none_without_match() {
    let listing = names(&["zmq.whl", "pyzmq.tar.gz"]);
    assert_eq!(find_wheel_in(&listing, "pyzmq"), None);
}

#[test]
fn contains_ci_folds_both_sides() {
    assert!(contains_ci("AbCdEf", "bCd"));
    assert!(contains_ci("ABCDEF", "bcd"));
    assert!(contains_ci("abcdef", "BCD"));
    assert!(!contains_ci("abcdef", "bce"));
    assert!(contains_ci("anything", ""));
    assert!(!contains_ci("", "a"));
}

#[test]
fn starts_with_ci_is_anchored() {
    assert!(starts_with_ci("PyZMQ-26.whl", "pyzmq"));
    assert!(!starts_with_ci("not-pyzmq.whl", "pyzmq"));
}

#[test]
fn has_ext_is_exact_and_needs_a_stem() {
    assert!(has_ext("a.pkg", "pkg"));
    assert!(has_ext("a.b.pkg", "pkg"));
    assert!(!has_ext(".pkg", "pkg"));
    assert!(!has_ext("apkg", "pkg"));
    assert!(!has_ext("a.PKG", "pkg"));
}

#[test]
fn ascii_lower_leaves_non_letters() {
    assert_eq!(ascii_lower('A'), 'a');
    assert_eq!(ascii_lower('Z'), 'z');
    assert_eq!(ascii_lower('a'), 'a');
    assert_eq!(ascii_lower('0'), '0');
    assert_eq!(ascii_lower('-'), '-');
}
