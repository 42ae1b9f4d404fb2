//! The ordered-strategy executor behind tool location and probe fallback:
//! a fixed list of command plans is tried in order, the first success wins,
//! and running out of plans is an ordinary, reportable outcome.
//!
//! Starting the external programs is the shell's job; the machine here only
//! decides which plan comes next and remembers how far the search has come.

use vstd::prelude::*;

verus! {

/// One concrete attempt: the program to start and the arguments to hand it.
pub struct CommandPlan {
    pub program: String,
    pub args: Vec<String>,
}

/// A logical tool: its name, the ordered candidate locations its executable
/// may stand at, and the liveness-probe arguments that confirm a candidate.
/// The order of the candidates encodes a preference — the bare name on the
/// search path first, then known fixed install prefixes.
pub struct ToolSpec {
    pub name: String,
    pub candidates: Vec<String>,
    pub probe_args: Vec<String>,
}

/// Copies a list of strings entry for entry.
pub fn clone_strings(v: &Vec<String>) -> (r: Vec<String>)
    ensures
        r@ == v@,
{
    let n = v.len();
    let mut r: Vec<String> = Vec::new();
    let mut i: usize = 0;
    while i < n
        invariant
            n == v@.len(),
            i <= n,
            r@ =~= v@.subrange(0, i as int),
        decreases n - i,
    {
        r.push(v[i].clone());
        i = i + 1;
    }
    assert(r@ =~= v@);
    r
}

impl ToolSpec {
    /// The liveness probes for this tool, one plan per candidate location,
    /// in the candidates' order.
    pub fn probe_plans(&self) -> (r: Vec<CommandPlan>)
        ensures
            r@.len() == self.candidates@.len(),
            forall|i: int|
                0 <= i < r@.len() ==> (#[trigger] r@[i]).program == self.candidates@[i]
                    && r@[i].args@ == self.probe_args@,
    {
        let n = self.candidates.len();
        let mut r: Vec<CommandPlan> = Vec::new();
        let mut i: usize = 0;
        while i < n
            invariant
                n == self.candidates@.len(),
                i <= n,
                r@.len() == i,
                forall|k: int|
                    0 <= k < i ==> (#[trigger] r@[k]).program == self.candidates@[k]
                        && r@[k].args@ == self.probe_args@,
            decreases n - i,
        {
            r.push(
                CommandPlan {
                    program: self.candidates[i].clone(),
                    args: clone_strings(&self.probe_args),
                },
            );
            i = i + 1;
        }
        r
    }
}

/// The ordered-strategy machine: plans are consumed front to back; a failure
/// moves to the next plan, a success ends the search at the current one.
pub struct StrategyRun {
    plans: Vec<CommandPlan>,
    next: usize,
}

impl StrategyRun {
    /// The plans this run was started with.
    pub closed spec fn spec_plans(&self) -> Seq<CommandPlan> {
        self.plans@
    }

    /// How many plans have already failed.
    pub closed spec fn spec_next(&self) -> int {
        self.next as int
    }

    /// The machine never runs past the end of its plan list.
    pub open spec fn wf(&self) -> bool {
        0 <= self.spec_next() <= self.spec_plans().len()
    }

    /// A fresh run over `plans`, positioned at the first plan.
    pub fn new(plans: Vec<CommandPlan>) -> (r: Self)
        ensures
            r.wf(),
            r.spec_plans() == plans@,
            r.spec_next() == 0,
    {
        StrategyRun { plans, next: 0 }
    }

    /// The position of the plan to try next.
    pub fn position(&self) -> (r: usize)
        ensures
            r == self.spec_next(),
    {
        self.next
    }

    /// The plan to try next, or nothing when every plan has failed.
    pub fn next_plan(&self) -> (r: Option<&CommandPlan>)
        requires
            self.wf(),
        ensures
            match r {
                Some(p) => self.spec_next() < self.spec_plans().len() && *p == self.spec_plans()[
                    self.spec_next()
                ],
                None => self.spec_next() == self.spec_plans().len(),
            },
    {
        if self.next < self.plans.len() {
            Some(&self.plans[self.next])
        } else {
            None
        }
    }

    /// Records that the current plan failed its attempt, moving the run to
    /// the following plan.
    pub fn record_failure(&mut self)
        requires
            old(self).wf(),
            old(self).spec_next() < old(self).spec_plans().len(),
        ensures
            final(self).wf(),
            final(self).spec_plans() == old(self).spec_plans(),
            final(self).spec_next() == old(self).spec_next() + 1,
    {
        let n = self.plans.len();
        assert(self.next < n);
        self.next = self.next + 1;
    }
}

/// The tool locator's decision: given the probe outcome of every candidate
/// location, the located candidate is the first whose probe succeeded, and
/// a tool none of whose probes succeeded is absent — an answer, not a fault.
pub fn locate(spec: &ToolSpec, probe_ok: &Vec<bool>) -> (r: Option<usize>)
    requires
        probe_ok@.len() == spec.candidates@.len(),
    ensures
        match r {
            Some(i) => {
                &&& i < probe_ok@.len()
                &&& probe_ok@[i as int]
                &&& forall|j: int| 0 <= j < i ==> !probe_ok@[j]
            },
            None => forall|j: int| 0 <= j < probe_ok@.len() ==> !probe_ok@[j],
        },
{
    let plans = spec.probe_plans();
    let mut run = StrategyRun::new(plans);
    loop
        invariant
            run.wf(),
            run.spec_plans().len() == probe_ok@.len(),
            forall|j: int| 0 <= j < run.spec_next() ==> !probe_ok@[j],
        ensures
            run.spec_next() == probe_ok@.len(),
            forall|j: int| 0 <= j < probe_ok@.len() ==> !probe_ok@[j],
        decreases probe_ok@.len() - run.spec_next(),
    {
        let pos = run.position();
        if pos >= probe_ok.len() {
            break ;
        }
        if probe_ok[pos] {
            return Some(pos);
        }
        run.record_failure();
    }
    None
}

} // verus!
