//! The mesh-client component: its data-driven tool table — the ordered
//! candidate locations the client may stand at — the command plans built
//! over them, and the decisions of the client's probe, bring-up and
//! direct-download install paths.

use crate::outcome::CommandResult;
use crate::strategy::{clone_strings, CommandPlan, ToolSpec};
use vstd::prelude::*;
use vstd::string::StringExecFns;

verus! {

/// The ordered candidate locations of the mesh client: the bare name on the
/// search path first, then the application bundle, then the two package-
/// manager prefixes.
pub fn mesh_candidates() -> (r: Vec<String>)
    ensures
        r@.len() == 4,
        r@[0]@ == "tailscale"@,
        r@[1]@ == "/Applications/Tailscale.app/Contents/MacOS/Tailscale"@,
        r@[2]@ == "/usr/local/bin/tailscale"@,
        r@[3]@ == "/opt/homebrew/bin/tailscale"@,
{
    let mut v: Vec<String> = Vec::new();
    v.push(String::from_str("tailscale"));
    v.push(String::from_str("/Applications/Tailscale.app/Contents/MacOS/Tailscale"));
    v.push(String::from_str("/usr/local/bin/tailscale"));
    v.push(String::from_str("/opt/homebrew/bin/tailscale"));
    v
}

/// The mesh client's tool entry: its candidates with the version liveness
/// probe.
pub fn mesh_tool_spec() -> (r: ToolSpec)
    ensures
        r.name@ == "tailscale"@,
        r.candidates@.len() == 4,
        r.candidates@[0]@ == "tailscale"@,
        r.candidates@[1]@ == "/Applications/Tailscale.app/Contents/MacOS/Tailscale"@,
        r.candidates@[2]@ == "/usr/local/bin/tailscale"@,
        r.candidates@[3]@ == "/opt/homebrew/bin/tailscale"@,
        r.probe_args@.len() == 1,
        r.probe_args@[0]@ == "version"@,
{
    let mut args: Vec<String> = Vec::new();
    args.push(String::from_str("version"));
    ToolSpec { name: String::from_str("tailscale"), candidates: mesh_candidates(), probe_args: args }
}

/// One plan per candidate location, all with the same arguments: how the
/// status and bring-up commands fall back across the known locations.
pub fn mesh_command_plans(args: &Vec<String>) -> (r: Vec<CommandPlan>)
    ensures
        r@.len() == 4,
        forall|i: int|
            0 <= i < 4 ==> (#[trigger] r@[i]).args@ == args@,
        r@[0].program@ == "tailscale"@,
        r@[1].program@ == "/Applications/Tailscale.app/Contents/MacOS/Tailscale"@,
        r@[2].program@ == "/usr/local/bin/tailscale"@,
        r@[3].program@ == "/opt/homebrew/bin/tailscale"@,
{
    let spec = ToolSpec {
        name: String::from_str("tailscale"),
        candidates: mesh_candidates(),
        probe_args: clone_strings(args),
    };
    spec.probe_plans()
}

/// The arguments of the machine-readable status query.
pub fn mesh_status_args() -> (r: Vec<String>)
    ensures
        r@.len() == 2,
        r@[0]@ == "status"@,
        r@[1]@ == "--json"@,
{
    let mut v: Vec<String> = Vec::new();
    v.push(String::from_str("status"));
    v.push(String::from_str("--json"));
    v
}

/// The network-diagnostics plans: for each candidate location in order, the
/// newer `--json` flag is tried first and the older `--format=json` spelling
/// second, before the next location is tried at all.
pub fn mesh_netcheck_plans() -> (r: Vec<CommandPlan>)
    ensures
        r@.len() == 8,
        forall|k: int|
            0 <= k < 4 ==> (#[trigger] r@[2 * k]).args@.len() == 2 && r@[2 * k].args@[0]@
                == "netcheck"@ && r@[2 * k].args@[1]@ == "--json"@,
        forall|k: int|
            0 <= k < 4 ==> (#[trigger] r@[2 * k + 1]).args@.len() == 2 && r@[2 * k + 1].args@[0]@
                == "netcheck"@ && r@[2 * k + 1].args@[1]@ == "--format=json"@,
        forall|k: int|
            0 <= k < 4 ==> (#[trigger] r@[2 * k]).program@ == r@[2 * k + 1].program@,
        r@[0].program@ == "tailscale"@,
        r@[2].program@ == "/Applications/Tailscale.app/Contents/MacOS/Tailscale"@,
        r@[4].program@ == "/usr/local/bin/tailscale"@,
        r@[6].program@ == "/opt/homebrew/bin/tailscale"@,
{
    let candidates = mesh_candidates();
    let mut r: Vec<CommandPlan> = Vec::new();
    let mut k: usize = 0;
    while k < 4
        invariant
            candidates@.len() == 4,
            candidates@[0]@ == "tailscale"@,
            candidates@[1]@ == "/Applications/Tailscale.app/Contents/MacOS/Tailscale"@,
            candidates@[2]@ == "/usr/local/bin/tailscale"@,
            candidates@[3]@ == "/opt/homebrew/bin/tailscale"@,
            k <= 4,
            r@.len() == 2 * k,
            forall|t: int|
                0 <= t < k ==> (#[trigger] r@[2 * t]).args@.len() == 2 && r@[2 * t].args@[0]@
                    == "netcheck"@ && r@[2 * t].args@[1]@ == "--json"@,
            forall|t: int|
                0 <= t < k ==> (#[trigger] r@[2 * t + 1]).args@.len() == 2 && r@[2 * t
                    + 1].args@[0]@ == "netcheck"@ && r@[2 * t + 1].args@[1]@ == "--format=json"@,
            forall|t: int|
                0 <= t < k ==> (#[trigger] r@[2 * t]).program@ == candidates@[t]@ && r@[2 * t
                    + 1].program@ == candidates@[t]@,
        decreases 4 - k,
    {
        let mut newer: Vec<String> = Vec::new();
        newer.push(String::from_str("netcheck"));
        newer.push(String::from_str("--json"));
        let mut older: Vec<String> = Vec::new();
        older.push(String::from_str("netcheck"));
        older.push(String::from_str("--format=json"));
        r.push(CommandPlan { program: candidates[k].clone(), args: newer });
        r.push(CommandPlan { program: candidates[k].clone(), args: older });
        k = k + 1;
    }
    proof {
        let t0: int = 0;
        let t1: int = 1;
        let t2: int = 2;
        let t3: int = 3;
        assert(r@[2 * t0].program@ == candidates@[t0]@);
        assert(r@[2 * t1].program@ == candidates@[t1]@);
        assert(r@[2 * t2].program@ == candidates@[t2]@);
        assert(r@[2 * t3].program@ == candidates@[t3]@);
    }
    r
}

/// Surfaces a probe search's outcome: the first succeeding candidate's
/// output, or — when every candidate failed or was absent — the textual
/// not-found condition, an error answer rather than a fault.
pub fn mesh_probe_report(out: Option<String>) -> (r: Result<String, String>)
    ensures
        match r {
            Ok(s) => out is Some && s@ == out->0@,
            Err(e) => out is None && e@ == "tailscale CLI not found"@,
        },
{
    match out {
        Some(s) => Ok(s),
        None => Err(String::from_str("tailscale CLI not found")),
    }
}

/// The bring-up arguments: the auth key always, and the reset flag — when
/// asked for — standing right after the subcommand.
pub fn up_args(auth_key: &str, reset: bool) -> (r: Vec<String>)
    ensures
        !reset ==> r@.len() == 3 && r@[0]@ == "up"@ && r@[1]@ == "--authkey"@ && r@[2]@
            == auth_key@,
        reset ==> r@.len() == 4 && r@[0]@ == "up"@ && r@[1]@ == "--reset"@ && r@[2]@
            == "--authkey"@ && r@[3]@ == auth_key@,
{
    let mut v: Vec<String> = Vec::new();
    v.push(String::from_str("up"));
    if reset {
        v.push(String::from_str("--reset"));
    }
    v.push(String::from_str("--authkey"));
    v.push(String::from_str(auth_key));
    v
}

/// Where the direct-download install fetches the mesh package from.
pub fn mesh_pkg_url() -> (r: String)
    ensures
        r@ == "https://pkgs.tailscale.com/stable/Tailscale.pkg"@,
{
    String::from_str("https://pkgs.tailscale.com/stable/Tailscale.pkg")
}

/// The fixed temporary path the downloaded package lands at.
pub fn mesh_pkg_dest() -> (r: String)
    ensures
        r@ == "/tmp/Tailscale.pkg"@,
{
    String::from_str("/tmp/Tailscale.pkg")
}

/// The download plan of the direct-download install.
pub fn mesh_download_plan() -> (r: CommandPlan)
    ensures
        r.program@ == "curl"@,
        r.args@.len() == 4,
        r.args@[0]@ == "-L"@,
        r.args@[1]@ == "-o"@,
        r.args@[2]@ == "/tmp/Tailscale.pkg"@,
        r.args@[3]@ == "https://pkgs.tailscale.com/stable/Tailscale.pkg"@,
{
    let mut args: Vec<String> = Vec::new();
    args.push(String::from_str("-L"));
    args.push(String::from_str("-o"));
    args.push(mesh_pkg_dest());
    args.push(mesh_pkg_url());
    CommandPlan { program: String::from_str("curl"), args }
}

/// The host's privileged package-installer utility run against a package.
pub fn installer_plan(pkg: &str) -> (r: CommandPlan)
    ensures
        r.program@ == "/usr/sbin/installer"@,
        r.args@.len() == 4,
        r.args@[0]@ == "-pkg"@,
        r.args@[1]@ == pkg@,
        r.args@[2]@ == "-target"@,
        r.args@[3]@ == "/"@,
{
    let mut args: Vec<String> = Vec::new();
    args.push(String::from_str("-pkg"));
    args.push(String::from_str(pkg));
    args.push(String::from_str("-target"));
    args.push(String::from_str("/"));
    CommandPlan { program: String::from_str("/usr/sbin/installer"), args }
}

/// The plan that asks the mesh client's GUI companion to quit.
pub fn quit_gui_plan() -> (r: CommandPlan)
    ensures
        r.program@ == "osascript"@,
        r.args@.len() == 2,
        r.args@[0]@ == "-e"@,
        r.args@[1]@ == "tell application \"Tailscale\" to quit"@,
{
    let mut args: Vec<String> = Vec::new();
    args.push(String::from_str("-e"));
    args.push(String::from_str("tell application \"Tailscale\" to quit"));
    CommandPlan { program: String::from_str("osascript"), args }
}

/// The download step of the direct-download install: a failing download
/// aborts the step, its combined output standing behind the failure marker.
pub fn download_step(curl: &CommandResult) -> (r: Result<(), String>)
    ensures
        match r {
            Ok(u) => curl.success,
            Err(e) => !curl.success && e@ == "download failed: "@ + curl.stdout@ + curl.stderr@,
        },
{
    if curl.success {
        Ok(())
    } else {
        let mut e = String::from_str("download failed: ");
        e.append(curl.combined().as_str());
        assert(e@ =~= "download failed: "@ + curl.stdout@ + curl.stderr@);
        Err(e)
    }
}

} // verus!
