//! Results of running an external program, and the error split the
//! orchestrator works with: a program that could not be started is a
//! different condition from a program that ran and reported failure.

use vstd::prelude::*;
use vstd::string::StringExecFns;

verus! {

/// What one external program run produced: whether it exited successfully,
/// and its captured output streams.
pub struct CommandResult {
    pub success: bool,
    pub stdout: String,
    pub stderr: String,
}

impl CommandResult {
    /// The combined output, stdout first, the form in which callers see a
    /// command's text.
    pub fn combined(&self) -> (r: String)
        ensures
            r@ == self.stdout@ + self.stderr@,
    {
        let mut s = self.stdout.clone();
        s.append(self.stderr.as_str());
        s
    }
}

/// The two error kinds of the provisioning layer. `Launch` means the external
/// program could not be started at all; `Operation` means it ran and reported
/// failure, or a precondition such as a missing bundled artifact was unmet.
#[derive(Debug, PartialEq, Eq)]
pub enum BootError {
    Launch { detail: String },
    Operation { detail: String },
}

impl BootError {
    /// The human-readable detail carried by either variant.
    pub open spec fn detail_spec(&self) -> Seq<char> {
        match self {
            BootError::Launch { detail } => detail@,
            BootError::Operation { detail } => detail@,
        }
    }

    /// Hands the detail out as text for display.
    pub fn describe(&self) -> (r: String)
        ensures
            r@ == self.detail_spec(),
    {
        match self {
            BootError::Launch { detail } => detail.clone(),
            BootError::Operation { detail } => detail.clone(),
        }
    }
}

/// Interprets a finished command by its exit status: a successful exit hands
/// the combined output out as the payload, a failing one hands the same text
/// out as the error detail. Callers, not the runner, interpret the status.
pub fn gate_on_exit(out: &CommandResult) -> (r: Result<String, String>)
    ensures
        match r {
            Ok(s) => out.success && s@ == out.stdout@ + out.stderr@,
            Err(e) => !out.success && e@ == out.stdout@ + out.stderr@,
        },
{
    let s = out.combined();
    if out.success {
        Ok(s)
    } else {
        Err(s)
    }
}

/// Interprets a liveness probe for the single-purpose preflight checks. A
/// probe that ran and exited successfully answers with its standard output.
/// Both failure kinds are fatal here: a probe that could not be started is
/// a launch error, and a probe that ran but reported failure is an
/// operation error carrying the captured output.
pub fn preflight_report(r: &Result<CommandResult, String>) -> (res: Result<String, BootError>)
    ensures
        match res {
            Ok(s) => r is Ok && (r->Ok_0).success && s@ == (r->Ok_0).stdout@,
            Err(e) => match e {
                BootError::Launch { detail } => r is Err && detail@ == (r->Err_0)@,
                BootError::Operation { detail } => {
                    &&& r is Ok
                    &&& !(r->Ok_0).success
                    &&& detail@ == (r->Ok_0).stdout@ + (r->Ok_0).stderr@
                },
            },
        },
{
    match r {
        Ok(out) => {
            if out.success {
                Ok(out.stdout.clone())
            } else {
                Err(BootError::Operation { detail: out.combined() })
            }
        },
        Err(e) => Err(BootError::Launch { detail: e.clone() }),
    }
}

/// One installer step's result: which step ran, whether it succeeded, and the
/// text it produced.
pub struct InstallOutcome {
    pub step: String,
    pub success: bool,
    pub log: String,
}

/// How one step's outcome reads in the aggregated report: a success is the
/// step name, an ` ok` marker and the step's log; a failure is the step name,
/// an ` err: ` marker and the failure detail on a line of its own.
pub open spec fn spec_render_outcome(step: Seq<char>, success: bool, log: Seq<char>) -> Seq<char> {
    if success {
        step + " ok\n"@ + log
    } else {
        step + " err: "@ + log + "\n"@
    }
}

/// Renders one step outcome as its report fragment.
pub fn render_outcome(o: &InstallOutcome) -> (r: String)
    ensures
        r@ == spec_render_outcome(o.step@, o.success, o.log@),
{
    let mut s = o.step.clone();
    if o.success {
        s.append(" ok\n");
        s.append(o.log.as_str());
        assert(s@ =~= spec_render_outcome(o.step@, true, o.log@));
    } else {
        s.append(" err: ");
        s.append(o.log.as_str());
        s.append("\n");
        assert(s@ =~= spec_render_outcome(o.step@, false, o.log@));
    }
    s
}

} // verus!
