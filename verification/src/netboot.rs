//! The networked bootstrap: a best-effort pass over the three install
//! steps — mesh client, media toolkit, messaging binding — in fixed order.
//! A step's failure is recorded with an `err` marker and never stops the
//! steps after it; the pass itself always hands back the aggregated report.

use crate::outcome::{render_outcome, spec_render_outcome, InstallOutcome};
use vstd::prelude::*;
use vstd::string::StringExecFns;

verus! {

/// A step result's text content: the log of a success, the detail of a
/// failure.
pub open spec fn res_view(r: Result<String, String>) -> Result<Seq<char>, Seq<char>> {
    match r {
        Ok(s) => Ok(s@),
        Err(e) => Err(e@),
    }
}

/// One step's fragment of the aggregated report.
pub open spec fn spec_step_part(name: Seq<char>, r: Result<Seq<char>, Seq<char>>) -> Seq<char> {
    match r {
        Ok(s) => spec_render_outcome(name, true, s),
        Err(e) => spec_render_outcome(name, false, e),
    }
}

/// The mesh step's fragment: a step skipped because the client was already
/// present still reports so, as a success whose log says already present.
pub open spec fn spec_mesh_part(m: Option<Result<Seq<char>, Seq<char>>>) -> Seq<char> {
    match m {
        None => spec_step_part("tailscale_install"@, Ok("already present"@)),
        Some(r) => spec_step_part("tailscale_install"@, r),
    }
}

/// The whole networked report: the three steps' fragments in step order.
pub open spec fn spec_net_report(
    mesh: Option<Result<Seq<char>, Seq<char>>>,
    media: Result<Seq<char>, Seq<char>>,
    messaging: Result<Seq<char>, Seq<char>>,
) -> Seq<char> {
    spec_mesh_part(mesh) + spec_step_part("gstreamer"@, media) + spec_step_part(
        "pyzmq"@,
        messaging,
    )
}

/// The phases of the networked pass, in the order the steps run.
pub enum NetPhase {
    Mesh,
    Media,
    Messaging,
    Done,
}

/// The networked bootstrap machine: the shell runs each installer and hands
/// the outcome in; the machine accumulates the report and never aborts.
pub struct NetRun {
    phase: NetPhase,
    report: String,
}

impl NetRun {
    /// Which step the run expects next.
    pub closed spec fn spec_phase(&self) -> NetPhase {
        self.phase
    }

    /// The report accumulated so far.
    pub closed spec fn spec_report(&self) -> Seq<char> {
        self.report@
    }

    /// A fresh run, before the mesh step, with an empty report.
    pub fn start() -> (r: Self)
        ensures
            r.spec_phase() == NetPhase::Mesh,
            r.spec_report() == Seq::<char>::empty(),
    {
        NetRun { phase: NetPhase::Mesh, report: String::new() }
    }

    /// Appends one step's rendered fragment.
    fn append_part(&mut self, name: &str, outcome: &Result<String, String>)
        ensures
            final(self).phase == old(self).phase,
            final(self).report@ == old(self).report@ + spec_step_part(
                name@,
                res_view(*outcome),
            ),
    {
        let o = match outcome {
            Ok(s) => InstallOutcome {
                step: String::from_str(name),
                success: true,
                log: s.clone(),
            },
            Err(e) => InstallOutcome {
                step: String::from_str(name),
                success: false,
                log: e.clone(),
            },
        };
        let part = render_outcome(&o);
        self.report.append(part.as_str());
    }

    /// Records the mesh-client step. `None` means the step was skipped
    /// because the client's probe already succeeded; the report then
    /// records the step as already present.
    pub fn record_mesh(&mut self, outcome: Option<&Result<String, String>>)
        requires
            old(self).spec_phase() == NetPhase::Mesh,
        ensures
            final(self).spec_phase() == NetPhase::Media,
            final(self).spec_report() == old(self).spec_report() + spec_mesh_part(
                match outcome {
                    None => None,
                    Some(r) => Some(res_view(*r)),
                },
            ),
    {
        match outcome {
            None => {
                self.append_part("tailscale_install", &Ok(String::from_str("already present")));
            },
            Some(r) => {
                self.append_part("tailscale_install", r);
            },
        }
        self.phase = NetPhase::Media;
    }

    /// Records the media-toolkit step; whatever it reported, the run moves
    /// on to the messaging step.
    pub fn record_media(&mut self, outcome: &Result<String, String>)
        requires
            old(self).spec_phase() == NetPhase::Media,
        ensures
            final(self).spec_phase() == NetPhase::Messaging,
            final(self).spec_report() == old(self).spec_report() + spec_step_part(
                "gstreamer"@,
                res_view(*outcome),
            ),
    {
        self.append_part("gstreamer", outcome);
        self.phase = NetPhase::Messaging;
    }

    /// Records the messaging-binding step, completing the pass.
    pub fn record_messaging(&mut self, outcome: &Result<String, String>)
        requires
            old(self).spec_phase() == NetPhase::Messaging,
        ensures
            final(self).spec_phase() == NetPhase::Done,
            final(self).spec_report() == old(self).spec_report() + spec_step_part(
                "pyzmq"@,
                res_view(*outcome),
            ),
    {
        self.append_part("pyzmq", outcome);
        self.phase = NetPhase::Done;
    }

    /// Hands the aggregated report out; the networked pass as a whole never
    /// fails.
    pub fn finish(self) -> (r: String)
        requires
            self.spec_phase() == NetPhase::Done,
        ensures
            r@ == self.spec_report(),
    {
        self.report
    }
}

/// Whether the mesh install step runs at all: only when no probe found the
/// client already present.
pub fn mesh_install_needed(mesh_present: bool) -> (r: bool)
    ensures
        r == !mesh_present,
{
    !mesh_present
}

/// Runs the whole networked pass over already-gathered step outcomes: the
/// report is exactly the three fragments in step order.
pub fn networked_report(
    mesh_outcome: Option<&Result<String, String>>,
    media_outcome: &Result<String, String>,
    messaging_outcome: &Result<String, String>,
) -> (r: String)
    ensures
        r@ == spec_net_report(
            match mesh_outcome {
                None => None,
                Some(m) => Some(res_view(*m)),
            },
            res_view(*media_outcome),
            res_view(*messaging_outcome),
        ),
{
    let mut run = NetRun::start();
    run.record_mesh(mesh_outcome);
    run.record_media(media_outcome);
    run.record_messaging(messaging_outcome);
    let r = run.finish();
    assert(r@ =~= spec_net_report(
        match mesh_outcome {
            None => None,
            Some(m) => Some(res_view(*m)),
        },
        res_view(*media_outcome),
        res_view(*messaging_outcome),
    ));
    r
}

/// A failure in one step leaves every other step's outcome in the report:
/// whatever each outcome was, the report decomposes into the three
/// fragments at their fixed places, so the `err` marker of a failed step
/// stands beside the other steps' fragments.
pub proof fn lemma_partial_failure_continuation(
    mesh: Option<Result<Seq<char>, Seq<char>>>,
    media: Result<Seq<char>, Seq<char>>,
    messaging: Result<Seq<char>, Seq<char>>,
)
    ensures
        spec_net_report(mesh, media, messaging).subrange(
            0,
            spec_mesh_part(mesh).len() as int,
        ) == spec_mesh_part(mesh),
        spec_net_report(mesh, media, messaging).subrange(
            spec_mesh_part(mesh).len() as int,
            (spec_mesh_part(mesh).len() + spec_step_part("gstreamer"@, media).len()) as int,
        ) == spec_step_part("gstreamer"@, media),
        spec_net_report(mesh, media, messaging).subrange(
            (spec_mesh_part(mesh).len() + spec_step_part("gstreamer"@, media).len()) as int,
            spec_net_report(mesh, media, messaging).len() as int,
        ) == spec_step_part("pyzmq"@, messaging),
{
    let a = spec_mesh_part(mesh);
    let b = spec_step_part("gstreamer"@, media);
    let c = spec_step_part("pyzmq"@, messaging);
    let r = spec_net_report(mesh, media, messaging);
    assert(r.subrange(0, a.len() as int) =~= a);
    assert(r.subrange(a.len() as int, (a.len() + b.len()) as int) =~= b);
    assert(r.subrange((a.len() + b.len()) as int, r.len() as int) =~= c);
}

} // verus!
