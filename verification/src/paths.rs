//! The fixed path layout of the provisioning layer, computed from plain
//! strings: the per-user support and log directories, the bootstrap marker,
//! the isolated environment, the bundled-resources tree and the known
//! package-manager locations. The shell supplies the home directory and the
//! running executable's path; everything else is derived here.

use vstd::prelude::*;
use vstd::string::{StrSliceExecFns, StringExecFns};

verus! {

/// The per-user log directory under `home`.
pub open spec fn spec_logs_dir(home: Seq<char>) -> Seq<char> {
    home + "/Library/Logs/teleop-ui"@
}

/// The single growing log file inside the log directory.
pub open spec fn spec_log_file(home: Seq<char>) -> Seq<char> {
    spec_logs_dir(home) + "/new_user_debug.log"@
}

/// The per-user support directory that holds the bootstrap marker and the
/// isolated environment.
pub open spec fn spec_support_dir(home: Seq<char>) -> Seq<char> {
    home + "/Library/Application Support/Teleop"@
}

/// Resolves the log directory under `home`.
pub fn logs_dir_path(home: &str) -> (r: String)
    ensures
        r@ == spec_logs_dir(home@),
{
    let mut p = String::from_str(home);
    p.append("/Library/Logs/teleop-ui");
    p
}

/// Resolves the log file under `home`.
pub fn log_file_path(home: &str) -> (r: String)
    ensures
        r@ == spec_log_file(home@),
{
    let mut p = logs_dir_path(home);
    p.append("/new_user_debug.log");
    p
}

/// Resolves the support directory under `home`.
pub fn support_dir_path(home: &str) -> (r: String)
    ensures
        r@ == spec_support_dir(home@),
{
    let mut p = String::from_str(home);
    p.append("/Library/Application Support/Teleop");
    p
}

/// The bootstrap marker inside the support directory: its presence alone
/// means the offline bootstrap has already run.
pub fn marker_path(support: &str) -> (r: String)
    ensures
        r@ == support@ + "/bootstrap_done"@,
{
    let mut p = String::from_str(support);
    p.append("/bootstrap_done");
    p
}

/// The isolated interpreter environment inside the support directory.
pub fn venv_path(support: &str) -> (r: String)
    ensures
        r@ == support@ + "/venv"@,
{
    let mut p = String::from_str(support);
    p.append("/venv");
    p
}

/// The package-install entry point of the isolated environment.
pub fn venv_pip_path(venv: &str) -> (r: String)
    ensures
        r@ == venv@ + "/bin/pip"@,
{
    let mut p = String::from_str(venv);
    p.append("/bin/pip");
    p
}

/// A per-dependency subdirectory of the bundled resources tree.
pub fn resource_subdir(resources: &str, leaf: &str) -> (r: String)
    ensures
        r@ == resources@ + "/resources/"@ + leaf@,
{
    let mut p = String::from_str(resources);
    p.append("/resources/");
    p.append(leaf);
    p
}

/// The destination of an exported log copy: a timestamped file on the
/// user's desktop.
pub fn export_dest_path(home: &str, stamp: &str) -> (r: String)
    ensures
        r@ == home@ + "/Desktop/new_user_debug_"@ + stamp@ + ".log"@,
{
    let mut p = String::from_str(home);
    p.append("/Desktop/new_user_debug_");
    p.append(stamp);
    p.append(".log");
    p
}

/// Picks the package manager's location from what exists on the host: the
/// two fixed install prefixes are preferred, in order, and the bare name is
/// used only when the search path already resolves it.
pub fn brew_path(opt_prefix_exists: bool, usr_prefix_exists: bool, on_search_path: bool) -> (r:
    Option<String>)
    ensures
        opt_prefix_exists ==> r is Some && r->0@ == "/opt/homebrew/bin/brew"@,
        !opt_prefix_exists && usr_prefix_exists ==> r is Some && r->0@ == "/usr/local/bin/brew"@,
        !opt_prefix_exists && !usr_prefix_exists && on_search_path ==> r is Some && r->0@
            == "brew"@,
        !opt_prefix_exists && !usr_prefix_exists && !on_search_path ==> r is None,
{
    if opt_prefix_exists {
        Some(String::from_str("/opt/homebrew/bin/brew"))
    } else if usr_prefix_exists {
        Some(String::from_str("/usr/local/bin/brew"))
    } else if on_search_path {
        Some(String::from_str("brew"))
    } else {
        None
    }
}

/// The textual parent of a path: what stands before the final separator.
/// A path without a separator has no parent.
pub open spec fn spec_parent(s: Seq<char>) -> Option<Seq<char>>
    decreases s.len(),
{
    if s.len() == 0 {
        None
    } else if s[s.len() - 1] == '/' {
        Some(s.subrange(0, s.len() - 1))
    } else {
        spec_parent(s.subrange(0, s.len() - 1))
    }
}

/// Computes the textual parent of `p`, matching `spec_parent`.
pub fn parent_of(p: &str) -> (r: Option<String>)
    ensures
        match r {
            Some(s) => spec_parent(p@) == Some(s@),
            None => spec_parent(p@) is None,
        },
{
    let len = p.unicode_len();
    assert(p@.subrange(0, len as int) =~= p@);
    let mut k: usize = len;
    while k > 0
        invariant
            k <= len,
            len == p@.len(),
            spec_parent(p@) == spec_parent(p@.subrange(0, k as int)),
        decreases k,
    {
        let c = p.get_char(k - 1);
        if c == '/' {
            proof {
                let t = p@.subrange(0, k as int);
                assert(t[k - 1] == '/');
                assert(spec_parent(t) == Some(t.subrange(0, k - 1)));
                assert(t.subrange(0, k - 1) =~= p@.subrange(0, k - 1));
            }
            let r = p.substring_char(0, k - 1);
            return Some(String::from_str(r));
        }
        proof {
            let t = p@.subrange(0, k as int);
            assert(t[k - 1] != '/');
            assert(spec_parent(t) == spec_parent(t.subrange(0, k - 1)));
            assert(t.subrange(0, k - 1) =~= p@.subrange(0, k - 1));
        }
        k = k - 1;
    }
    assert(p@.subrange(0, 0).len() == 0);
    None
}

/// What resolving the bundled-resources directory from the executable's
/// path yields: two textual parents up, then the `Resources` directory
/// beside the executable's own directory; a path too shallow for that
/// names the parent it lacks.
pub open spec fn spec_resources_dir(exe: Seq<char>) -> Result<Seq<char>, Seq<char>> {
    match spec_parent(exe) {
        Option::None => Result::Err("no parent"@),
        Option::Some(m) => match spec_parent(m) {
            Option::None => Result::Err("no contents"@),
            Option::Some(c) => Result::Ok(c + "/Resources"@),
        },
    }
}

/// Resolves the bundled-resources directory from the running executable's
/// path.
pub fn current_app_resources_dir(exe: &str) -> (r: Result<String, String>)
    ensures
        match r {
            Ok(s) => spec_resources_dir(exe@) == Result::<Seq<char>, Seq<char>>::Ok(s@),
            Err(e) => spec_resources_dir(exe@) == Result::<Seq<char>, Seq<char>>::Err(e@),
        },
{
    let macos_dir = match parent_of(exe) {
        Some(d) => d,
        None => {
            return Err(String::from_str("no parent"));
        },
    };
    let contents_dir = match parent_of(macos_dir.as_str()) {
        Some(d) => d,
        None => {
            return Err(String::from_str("no contents"));
        },
    };
    let mut res = contents_dir;
    res.append("/Resources");
    Ok(res)
}

} // verus!
