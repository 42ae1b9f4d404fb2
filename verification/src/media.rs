//! The media-toolkit component: its package-manager install strategy. The
//! step short-circuits when the toolkit's probe already succeeds; otherwise
//! the package manager is located or bootstrapped non-interactively, and a
//! fixed list of packages is installed in order, every attempt running and
//! feeding one cumulative log even when an earlier attempt failed.

use crate::outcome::{BootError, CommandResult};
use crate::paths::brew_path;
use crate::strategy::CommandPlan;
use vstd::prelude::*;
use vstd::string::StringExecFns;

verus! {

/// The media toolkit's liveness probe.
pub fn media_probe_plan() -> (r: CommandPlan)
    ensures
        r.program@ == "gst-launch-1.0"@,
        r.args@.len() == 1,
        r.args@[0]@ == "--version"@,
{
    let mut args: Vec<String> = Vec::new();
    args.push(String::from_str("--version"));
    CommandPlan { program: String::from_str("gst-launch-1.0"), args }
}

/// The install step's precondition short-circuit: a toolkit whose probe
/// already succeeds is reported present, and no install subcommand follows.
pub fn media_start(media_present: bool) -> (r: Option<String>)
    ensures
        media_present <==> r is Some,
        r is Some ==> r->0@ == "gstreamer already present"@,
{
    if media_present {
        Some(String::from_str("gstreamer already present"))
    } else {
        None
    }
}

/// The non-interactive package-manager bootstrap: the published install
/// script, fetched and run by the shell interpreter. The shell must run it
/// with the non-interactive switch set in its environment.
pub fn brew_bootstrap_plan() -> (r: CommandPlan)
    ensures
        r.program@ == "/bin/bash"@,
        r.args@.len() == 2,
        r.args@[0]@ == "-c"@,
        r.args@[1]@
            == "/bin/bash -c \"$(curl -fsSL https://raw.githubusercontent.com/Homebrew/install/HEAD/install.sh)\""@,
{
    let mut args: Vec<String> = Vec::new();
    args.push(String::from_str("-c"));
    args.push(
        String::from_str(
            "/bin/bash -c \"$(curl -fsSL https://raw.githubusercontent.com/Homebrew/install/HEAD/install.sh)\"",
        ),
    );
    CommandPlan { program: String::from_str("/bin/bash"), args }
}

/// Where the package manager stands after the bootstrap attempt, given the
/// re-checked locations.
pub open spec fn spec_brew_path(
    opt_prefix_exists: bool,
    usr_prefix_exists: bool,
    on_search_path: bool,
) -> Option<Seq<char>> {
    if opt_prefix_exists {
        Some("/opt/homebrew/bin/brew"@)
    } else if usr_prefix_exists {
        Some("/usr/local/bin/brew"@)
    } else if on_search_path {
        Some("brew"@)
    } else {
        None
    }
}

/// Decides what the package-manager bootstrap came to: a script that could
/// not start aborts the step as a launch failure; a script that ran and
/// failed aborts it with the captured output; a script that succeeded must
/// leave the package manager at one of the known locations, and its absence
/// even then is its own failure.
pub fn brew_bootstrap_result(
    script: &Result<CommandResult, String>,
    opt_prefix_exists: bool,
    usr_prefix_exists: bool,
    on_search_path: bool,
) -> (r: Result<String, BootError>)
    ensures
        match r {
            Ok(p) => {
                &&& script is Ok
                &&& (script->Ok_0).success
                &&& spec_brew_path(opt_prefix_exists, usr_prefix_exists, on_search_path) == Some(
                    p@,
                )
            },
            Err(e) => match e {
                BootError::Launch { detail } => script is Err && detail@ == (script->Err_0)@,
                BootError::Operation { detail } => {
                    &&& script is Ok
                    &&& {
                        ||| (!(script->Ok_0).success && detail@ == "homebrew install failed: "@
                            + (script->Ok_0).stdout@ + (script->Ok_0).stderr@)
                        ||| ((script->Ok_0).success && spec_brew_path(
                            opt_prefix_exists,
                            usr_prefix_exists,
                            on_search_path,
                        ) is None && detail@ == "brew not found after install"@)
                    }
                },
            },
        },
{
    match script {
        Err(e) => Err(BootError::Launch { detail: e.clone() }),
        Ok(out) => {
            if !out.success {
                let mut d = String::from_str("homebrew install failed: ");
                d.append(out.combined().as_str());
                assert(d@ =~= "homebrew install failed: "@ + out.stdout@ + out.stderr@);
                Err(BootError::Operation { detail: d })
            } else {
                match brew_path(opt_prefix_exists, usr_prefix_exists, on_search_path) {
                    Some(p) => Ok(p),
                    None => Err(
                        BootError::Operation {
                            detail: String::from_str("brew not found after install"),
                        },
                    ),
                }
            }
        },
    }
}

/// The package manager's index update.
pub fn brew_update_plan(brew: &str) -> (r: CommandPlan)
    ensures
        r.program@ == brew@,
        r.args@.len() == 1,
        r.args@[0]@ == "update"@,
{
    let mut args: Vec<String> = Vec::new();
    args.push(String::from_str("update"));
    CommandPlan { program: String::from_str(brew), args }
}

/// One package's install subcommand.
pub fn brew_install_plan(brew: &str, pkg: &str) -> (r: CommandPlan)
    ensures
        r.program@ == brew@,
        r.args@.len() == 2,
        r.args@[0]@ == "install"@,
        r.args@[1]@ == pkg@,
{
    let mut args: Vec<String> = Vec::new();
    args.push(String::from_str("install"));
    args.push(String::from_str(pkg));
    CommandPlan { program: String::from_str(brew), args }
}

/// The fixed package list of the media toolkit, in install order.
pub fn media_packages() -> (r: Vec<String>)
    ensures
        r@.len() == 5,
        r@[0]@ == "gstreamer"@,
        r@[1]@ == "gst-plugins-base"@,
        r@[2]@ == "gst-plugins-good"@,
        r@[3]@ == "gst-plugins-bad"@,
        r@[4]@ == "gst-libav"@,
{
    let mut v: Vec<String> = Vec::new();
    v.push(String::from_str("gstreamer"));
    v.push(String::from_str("gst-plugins-base"));
    v.push(String::from_str("gst-plugins-good"));
    v.push(String::from_str("gst-plugins-bad"));
    v.push(String::from_str("gst-libav"));
    v
}

/// The combined outputs of a run of commands, in order.
pub open spec fn spec_outputs(outs: Seq<CommandResult>) -> Seq<char>
    decreases outs.len(),
{
    if outs.len() == 0 {
        Seq::<char>::empty()
    } else {
        spec_outputs(outs.drop_last()) + outs.last().stdout@ + outs.last().stderr@
    }
}

/// Folds the update's output and every package attempt's output into the
/// cumulative install log: every attempt's text appears, in order, whether
/// or not the attempt succeeded — one failing package does not displace the
/// output of the ones after it.
pub fn media_install_log(update: &CommandResult, installs: &Vec<CommandResult>) -> (r: String)
    ensures
        r@ == update.stdout@ + update.stderr@ + spec_outputs(installs@),
{
    let mut log = update.combined();
    let n = installs.len();
    let mut i: usize = 0;
    while i < n
        invariant
            n == installs@.len(),
            i <= n,
            log@ == update.stdout@ + update.stderr@ + spec_outputs(installs@.take(i as int)),
        decreases n - i,
    {
        log.append(installs[i].stdout.as_str());
        log.append(installs[i].stderr.as_str());
        proof {
            let t = installs@.take(i + 1);
            assert(t.drop_last() =~= installs@.take(i as int));
            assert(t.last() == installs@[i as int]);
        }
        i = i + 1;
    }
    assert(installs@.take(n as int) =~= installs@);
    log
}

} // verus!
