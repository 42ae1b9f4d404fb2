//! The offline bootstrap: a one-shot, marker-guarded pass that provisions
//! every dependency from the bundled resources. The guard is "attempted
//! once": when the marker is present the whole pass is a no-op with a
//! sentinel answer, and otherwise the marker is written only after every
//! step has been taken — a crash mid-run leaves it absent, and the next
//! invocation redoes only the steps whose own preconditions still fail.

use crate::outcome::CommandResult;
use crate::textscan::{find_pkg_in, find_wheel_in, pkg_matches, wheel_matches};
use vstd::prelude::*;
use vstd::string::StringExecFns;

verus! {

/// The provisioning steps of the offline pass, in their fixed order.
#[derive(PartialEq, Eq, Structural)]
pub enum OfflineStepTag {
    MeshStep,
    MediaStep,
    VenvStep,
    WheelStep,
}

/// The fixed order in which the offline pass takes its steps.
pub open spec fn offline_step_order() -> Seq<OfflineStepTag> {
    seq![
        OfflineStepTag::MeshStep,
        OfflineStepTag::MediaStep,
        OfflineStepTag::VenvStep,
        OfflineStepTag::WheelStep,
    ]
}

/// Where an offline run stands: which step it expects next, `Marker`
/// meaning all steps are done and only the marker write is left.
pub enum OfflinePhase {
    Mesh,
    Media,
    Venv,
    Wheel,
    Marker,
}

/// How many steps a run at this phase has taken.
pub open spec fn phase_rank(p: OfflinePhase) -> int {
    match p {
        OfflinePhase::Mesh => 0,
        OfflinePhase::Media => 1,
        OfflinePhase::Venv => 2,
        OfflinePhase::Wheel => 3,
        OfflinePhase::Marker => 4,
    }
}

/// What one artifact step decided: the dependency is already usable, a
/// bundled artifact at the given listing position should be installed, or
/// nothing is bundled for it — a logged skip, not an error.
#[derive(Debug, PartialEq, Eq)]
pub enum ArtifactStep {
    AlreadyPresent,
    Install { index: usize },
    NotBundled,
}

/// An offline bootstrap run under way. The shell asks each step what to do,
/// performs any external work, and feeds output back in; the machine keeps
/// the cumulative log and refuses steps out of order.
pub struct OfflineRun {
    phase: OfflinePhase,
    report: String,
    history: Ghost<Seq<OfflineStepTag>>,
}

/// How an offline bootstrap begins: as a sentinel no-op when the marker is
/// already present, or as a fresh run.
pub enum OfflineStart {
    AlreadyDone,
    Fresh(OfflineRun),
}

/// The sentinel answer of a pass that found the marker already present.
pub fn already_done_sentinel() -> (r: String)
    ensures
        r@ == "already_bootstrapped"@,
{
    String::from_str("already_bootstrapped")
}

impl OfflineRun {
    /// Which step the run expects next.
    pub closed spec fn spec_phase(&self) -> OfflinePhase {
        self.phase
    }

    /// The cumulative log of the run so far.
    pub closed spec fn spec_report(&self) -> Seq<char> {
        self.report@
    }

    /// The steps the run has taken, in order.
    pub closed spec fn spec_history(&self) -> Seq<OfflineStepTag> {
        self.history@
    }

    /// A run's history is always exactly the steps the fixed order puts
    /// before its phase.
    pub open spec fn wf(&self) -> bool {
        self.spec_history() == offline_step_order().take(phase_rank(self.spec_phase()))
    }

    /// Begins the offline bootstrap. The guard comes first: with the marker
    /// present the pass is already done and performs no work at all;
    /// without it a fresh run stands at the mesh step with an empty log.
    pub fn start(marker_present: bool) -> (r: OfflineStart)
        ensures
            marker_present <==> r is AlreadyDone,
            r is Fresh ==> {
                let run = r->0;
                &&& run.wf()
                &&& run.spec_phase() == OfflinePhase::Mesh
                &&& run.spec_report() == Seq::<char>::empty()
            },
    {
        if marker_present {
            OfflineStart::AlreadyDone
        } else {
            let run = OfflineRun {
                phase: OfflinePhase::Mesh,
                report: String::new(),
                history: Ghost(Seq::empty()),
            };
            assert(run.spec_history() =~= offline_step_order().take(0));
            OfflineStart::Fresh(run)
        }
    }

    /// Appends one external command's captured output to the log, stdout
    /// first, without moving the run.
    pub fn append_output(&mut self, out: &CommandResult)
        requires
            old(self).wf(),
        ensures
            final(self).wf(),
            final(self).spec_phase() == old(self).spec_phase(),
            final(self).spec_history() == old(self).spec_history(),
            final(self).spec_report() == old(self).spec_report() + out.stdout@ + out.stderr@,
    {
        self.report.append(out.stdout.as_str());
        self.report.append(out.stderr.as_str());
    }

    /// The mesh-client step. A succeeding liveness probe short-circuits it
    /// to success: nothing is installed and the log records the client
    /// already present. Otherwise the first bundled mesh package in the
    /// listing is chosen, and a listing without one is logged as a skip.
    pub fn mesh_step(&mut self, mesh_present: bool, listing: &Vec<String>) -> (r: ArtifactStep)
        requires
            old(self).wf(),
            old(self).spec_phase() == OfflinePhase::Mesh,
        ensures
            final(self).wf(),
            final(self).spec_phase() == OfflinePhase::Media,
            final(self).spec_history() == old(self).spec_history().push(OfflineStepTag::MeshStep),
            match r {
                ArtifactStep::AlreadyPresent => {
                    &&& mesh_present
                    &&& final(self).spec_report() == old(self).spec_report()
                        + "tailscale already present\n"@
                },
                ArtifactStep::Install { index } => {
                    &&& !mesh_present
                    &&& index < listing@.len()
                    &&& pkg_matches(listing@[index as int]@, "tailscale"@)
                    &&& forall|j: int| 0 <= j < index ==> !pkg_matches(listing@[j]@, "tailscale"@)
                    &&& final(self).spec_report() == old(self).spec_report()
                },
                ArtifactStep::NotBundled => {
                    &&& !mesh_present
                    &&& forall|j: int|
                        0 <= j < listing@.len() ==> !pkg_matches(listing@[j]@, "tailscale"@)
                    &&& final(self).spec_report() == old(self).spec_report()
                        + "tailscale pkg not bundled\n"@
                },
            },
    {
        self.phase = OfflinePhase::Media;
        proof {
            self.history@ = self.history@.push(OfflineStepTag::MeshStep);
            assert(self.history@ =~= offline_step_order().take(1));
        }
        if mesh_present {
            self.report.append("tailscale already present\n");
            ArtifactStep::AlreadyPresent
        } else {
            match find_pkg_in(listing, "tailscale") {
                Some(i) => ArtifactStep::Install { index: i },
                None => {
                    self.report.append("tailscale pkg not bundled\n");
                    ArtifactStep::NotBundled
                },
            }
        }
    }

    /// The media-toolkit step, the mesh step's twin over the media bundle.
    pub fn media_step(&mut self, media_present: bool, listing: &Vec<String>) -> (r: ArtifactStep)
        requires
            old(self).wf(),
            old(self).spec_phase() == OfflinePhase::Media,
        ensures
            final(self).wf(),
            final(self).spec_phase() == OfflinePhase::Venv,
            final(self).spec_history() == old(self).spec_history().push(OfflineStepTag::MediaStep),
            match r {
                ArtifactStep::AlreadyPresent => {
                    &&& media_present
                    &&& final(self).spec_report() == old(self).spec_report()
                        + "gstreamer already present\n"@
                },
                ArtifactStep::Install { index } => {
                    &&& !media_present
                    &&& index < listing@.len()
                    &&& pkg_matches(listing@[index as int]@, "gstreamer"@)
                    &&& forall|j: int| 0 <= j < index ==> !pkg_matches(listing@[j]@, "gstreamer"@)
                    &&& final(self).spec_report() == old(self).spec_report()
                },
                ArtifactStep::NotBundled => {
                    &&& !media_present
                    &&& forall|j: int|
                        0 <= j < listing@.len() ==> !pkg_matches(listing@[j]@, "gstreamer"@)
                    &&& final(self).spec_report() == old(self).spec_report()
                        + "gstreamer pkg not bundled\n"@
                },
            },
    {
        self.phase = OfflinePhase::Venv;
        proof {
            self.history@ = self.history@.push(OfflineStepTag::MediaStep);
            assert(self.history@ =~= offline_step_order().take(2));
        }
        if media_present {
            self.report.append("gstreamer already present\n");
            ArtifactStep::AlreadyPresent
        } else {
            match find_pkg_in(listing, "gstreamer") {
                Some(i) => ArtifactStep::Install { index: i },
                None => {
                    self.report.append("gstreamer pkg not bundled\n");
                    ArtifactStep::NotBundled
                },
            }
        }
    }

    /// The isolated-environment step: the environment is created only when
    /// its directory does not already exist.
    pub fn venv_step(&mut self, venv_present: bool) -> (create: bool)
        requires
            old(self).wf(),
            old(self).spec_phase() == OfflinePhase::Venv,
        ensures
            final(self).wf(),
            final(self).spec_phase() == OfflinePhase::Wheel,
            final(self).spec_history() == old(self).spec_history().push(OfflineStepTag::VenvStep),
            final(self).spec_report() == old(self).spec_report(),
            create == !venv_present,
    {
        self.phase = OfflinePhase::Wheel;
        proof {
            self.history@ = self.history@.push(OfflineStepTag::VenvStep);
            assert(self.history@ =~= offline_step_order().take(3));
        }
        !venv_present
    }

    /// The messaging-binding step: the first bundled wheel whose name
    /// starts with the binding's name is installed into the environment; a
    /// bundle without one is logged as a skip.
    pub fn wheel_step(&mut self, listing: &Vec<String>) -> (r: Option<usize>)
        requires
            old(self).wf(),
            old(self).spec_phase() == OfflinePhase::Wheel,
        ensures
            final(self).wf(),
            final(self).spec_phase() == OfflinePhase::Marker,
            final(self).spec_history() == old(self).spec_history().push(OfflineStepTag::WheelStep),
            match r {
                Some(i) => {
                    &&& i < listing@.len()
                    &&& wheel_matches(listing@[i as int]@, "pyzmq"@)
                    &&& forall|j: int| 0 <= j < i ==> !wheel_matches(listing@[j]@, "pyzmq"@)
                    &&& final(self).spec_report() == old(self).spec_report()
                },
                None => {
                    &&& forall|j: int|
                        0 <= j < listing@.len() ==> !wheel_matches(listing@[j]@, "pyzmq"@)
                    &&& final(self).spec_report() == old(self).spec_report()
                        + "pyzmq wheel not bundled\n"@
                },
            },
    {
        self.phase = OfflinePhase::Marker;
        proof {
            self.history@ = self.history@.push(OfflineStepTag::WheelStep);
            assert(self.history@ =~= offline_step_order().take(4));
        }
        match find_wheel_in(listing, "pyzmq") {
            Some(i) => Some(i),
            None => {
                self.report.append("pyzmq wheel not bundled\n");
                None
            },
        }
    }

    /// Ends the run, telling the shell to write the marker now and return
    /// the cumulative log. Only a run whose every step has been taken can
    /// be finished — the marker write is the last action of the pass,
    /// whatever the individual steps reported.
    pub fn finish(self) -> (r: String)
        requires
            self.wf(),
            self.spec_phase() == OfflinePhase::Marker,
        ensures
            r@ == self.spec_report(),
    {
        self.report
    }
}

/// The marker write comes last: a run standing at the marker write has
/// taken every provisioning step, in the fixed order — no path reaches the
/// marker early.
pub proof fn lemma_marker_write_is_last(r: &OfflineRun)
    requires
        r.wf(),
        r.spec_phase() == OfflinePhase::Marker,
    ensures
        r.spec_history() == offline_step_order(),
{
    assert(offline_step_order().take(4) =~= offline_step_order());
}

} // verus!
