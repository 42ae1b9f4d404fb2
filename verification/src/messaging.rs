//! The messaging-binding component: its interpreter-level liveness probe
//! and the plans that install the binding — over the network through the
//! interpreter's own package tool, or offline from a bundled wheel into the
//! isolated environment. The interpreter install has no presence
//! short-circuit: it is safe to re-run.

use crate::strategy::CommandPlan;
use vstd::prelude::*;
use vstd::string::StringExecFns;

verus! {

/// The binding's liveness probe: the interpreter imports the binding and
/// prints its version.
pub fn zmq_probe_plan() -> (r: CommandPlan)
    ensures
        r.program@ == "python3"@,
        r.args@.len() == 2,
        r.args@[0]@ == "-c"@,
        r.args@[1]@ == "import zmq,sys;print(zmq.__version__)\n"@,
{
    let mut args: Vec<String> = Vec::new();
    args.push(String::from_str("-c"));
    args.push(String::from_str("import zmq,sys;print(zmq.__version__)\n"));
    CommandPlan { program: String::from_str("python3"), args }
}

/// The networked install of the binding through the interpreter's package
/// tool.
pub fn pip_install_plan() -> (r: CommandPlan)
    ensures
        r.program@ == "python3"@,
        r.args@.len() == 4,
        r.args@[0]@ == "-m"@,
        r.args@[1]@ == "pip"@,
        r.args@[2]@ == "install"@,
        r.args@[3]@ == "pyzmq"@,
{
    let mut args: Vec<String> = Vec::new();
    args.push(String::from_str("-m"));
    args.push(String::from_str("pip"));
    args.push(String::from_str("install"));
    args.push(String::from_str("pyzmq"));
    CommandPlan { program: String::from_str("python3"), args }
}

/// Creation of the isolated interpreter environment at `venv`.
pub fn venv_create_plan(venv: &str) -> (r: CommandPlan)
    ensures
        r.program@ == "python3"@,
        r.args@.len() == 3,
        r.args@[0]@ == "-m"@,
        r.args@[1]@ == "venv"@,
        r.args@[2]@ == venv@,
{
    let mut args: Vec<String> = Vec::new();
    args.push(String::from_str("-m"));
    args.push(String::from_str("venv"));
    args.push(String::from_str(venv));
    CommandPlan { program: String::from_str("python3"), args }
}

/// The offline wheel install: the environment's own package tool run
/// against the bundled wheel.
pub fn wheel_install_plan(pip: &str, wheel: &str) -> (r: CommandPlan)
    ensures
        r.program@ == pip@,
        r.args@.len() == 2,
        r.args@[0]@ == "install"@,
        r.args@[1]@ == wheel@,
{
    let mut args: Vec<String> = Vec::new();
    args.push(String::from_str("install"));
    args.push(String::from_str(wheel));
    CommandPlan { program: String::from_str(pip), args }
}

} // verus!
