//! The sequencing policy of a run.
//!
//! Two small state machines say in what order backend work happens and when
//! it stops.  An `ApplyRun` walks one connector's planned requests strictly
//! sequentially: the caller takes the next request, carries it over the
//! backend's transport, and reports the outcome before the following request
//! is handed out; the first fatal failure aborts the rest of the plan.  An
//! `Orchestrator` walks the materialized connectors the same way: the first
//! connector that fails stops the whole run, and no later connector is
//! attempted.
use vstd::prelude::*;

use crate::command::Command;
use crate::connectors::Connector;
use crate::connectors::ConnectorConfig;
use crate::connectors::ledfx::Ledfx;
use crate::connectors::ledfx::LedfxError;

verus! {

/// Whether the `i`-th issued request failed in a way that aborts the rest
/// of its plan.
pub open spec fn fatal_at(cmds: Seq<Command>, outcomes: Seq<bool>, i: int) -> bool {
    !outcomes[i] && cmds[i].spec_failure_aborts()
}

/// The sequential run of one connector's plan.
pub struct ApplyRun {
    commands: Vec<Command>,
    next: usize,
    aborted: bool,
    outcomes: Ghost<Seq<bool>>,
}

impl ApplyRun {
    /// The plan being run.
    pub closed spec fn commands_spec(&self) -> Seq<Command> {
        self.commands@
    }

    /// How many requests were handed out so far.
    pub closed spec fn issued(&self) -> int {
        self.next as int
    }

    /// The reported outcome of every issued request, in order.
    pub closed spec fn outcomes_spec(&self) -> Seq<bool> {
        self.outcomes@
    }

    /// Whether a fatal failure stopped the run.
    pub closed spec fn is_aborted(&self) -> bool {
        self.aborted
    }

    /// Every issued request has its outcome recorded; only the latest
    /// outcome can be a fatal failure, and the run is aborted exactly when
    /// it is one.
    pub closed spec fn wf(&self) -> bool {
        &&& self.next == self.outcomes@.len()
        &&& self.next <= self.commands@.len()
        &&& (self.aborted <==> (self.next > 0 && fatal_at(
            self.commands@,
            self.outcomes@,
            self.next - 1,
        )))
        &&& (forall|i: int|
            0 <= i < self.outcomes@.len() - 1 ==> !fatal_at(self.commands@, self.outcomes@, i))
    }

    /// Start a run over a connector's plan.
    pub fn new(commands: Vec<Command>) -> (r: ApplyRun)
        ensures
            r.wf(),
            r.commands_spec() == commands@,
            r.issued() == 0,
            !r.is_aborted(),
            r.outcomes_spec() == Seq::<bool>::empty(),
    {
        ApplyRun { commands, next: 0, aborted: false, outcomes: Ghost(Seq::empty()) }
    }

    /// The next request to carry to the backend, or `None` when the plan is
    /// exhausted or an earlier request failed fatally.
    pub fn next_command(&self) -> (r: Option<&Command>)
        requires
            self.wf(),
        ensures
            (self.is_aborted() || self.issued() >= self.commands_spec().len()) ==> r is None,
            !(self.is_aborted() || self.issued() >= self.commands_spec().len()) ==> (r matches Some(
                c,
            ) && *c == self.commands_spec()[self.issued()]),
    {
        if self.aborted || self.next >= self.commands.len() {
            None
        } else {
            Some(&self.commands[self.next])
        }
    }

    /// Record what the transport reported for the request just handed out.
    /// A failure aborts the rest of the run unless the request was advisory.
    pub fn record(&mut self, ok: bool)
        requires
            old(self).wf(),
            !old(self).is_aborted(),
            old(self).issued() < old(self).commands_spec().len(),
        ensures
            final(self).wf(),
            final(self).commands_spec() == old(self).commands_spec(),
            final(self).issued() == old(self).issued() + 1,
            final(self).outcomes_spec() == old(self).outcomes_spec().push(ok),
            final(self).is_aborted() <==> (!ok && old(self).commands_spec()[old(
                self,
            ).issued()].spec_failure_aborts()),
    {
        let _len = self.commands.len();
        let fatal = if ok {
            false
        } else {
            self.commands[self.next].failure_aborts()
        };
        if fatal {
            self.aborted = true;
        }
        self.next = self.next + 1;
        self.outcomes = Ghost(self.outcomes@.push(ok));
        proof {
            let prev = old(self).outcomes_spec();
            assert(forall|i: int| 0 <= i < prev.len() ==> self.outcomes@[i] == prev[i]);
            assert(forall|i: int|
                0 <= i < prev.len() ==> (fatal_at(self.commands@, self.outcomes@, i) == fatal_at(
                    self.commands@,
                    prev,
                    i,
                )));
            if old(self).next > 0 {
                assert(!fatal_at(self.commands@, prev, old(self).next - 1));
            }
            assert forall|i: int| 0 <= i < self.outcomes@.len() - 1 implies !fatal_at(
                self.commands@,
                self.outcomes@,
                i,
            ) by {
                assert(fatal_at(self.commands@, self.outcomes@, i) == fatal_at(
                    self.commands@,
                    prev,
                    i,
                ));
                if i < prev.len() - 1 {
                    assert(!fatal_at(self.commands@, prev, i));
                } else {
                    assert(i == prev.len() - 1);
                }
            }
        }
    }
}

/// A rejected request stops its plan: in every reachable run whose `i`-th
/// issued request failed fatally, exactly the requests up to and including
/// the rejected one were issued, and the run is aborted, so no later request
/// of the plan is ever handed out.
pub proof fn lemma_abort_stops_run(run: ApplyRun, i: int)
    requires
        run.wf(),
        0 <= i < run.outcomes_spec().len(),
        fatal_at(run.commands_spec(), run.outcomes_spec(), i),
    ensures
        run.issued() == i + 1,
        run.is_aborted(),
{
    if i < run.outcomes_spec().len() - 1 {
        assert(!fatal_at(run.commands_spec(), run.outcomes_spec(), i));
    }
}

/// A lighting reset issues exactly one deactivate request per scene present
/// in the live listing at the time of apply, in listing order, and aborts
/// the remaining deactivations on the first rejected request: a run of such
/// a plan whose `i`-th request was rejected issued exactly the first `i + 1`
/// deactivations and no later one.
pub proof fn lemma_lighting_reset_aborts(
    c: Ledfx,
    listing: Vec<(String, String)>,
    r: Result<Vec<Command>, LedfxError>,
    run: ApplyRun,
    i: int,
)
    requires
        c.scene_id is Reset,
        c.endpoint is Some,
        c.plan_spec(&Some(listing), r),
        r matches Ok(cmds) && run.commands_spec() == cmds@,
        run.wf(),
        0 <= i < run.outcomes_spec().len(),
        !run.outcomes_spec()[i],
    ensures
        run.commands_spec().len() == listing@.len(),
        forall|j: int|
            0 <= j < listing@.len() ==> ((#[trigger] run.commands_spec()[j])
                matches Command::DeactivateScene { id } && id == listing@[j].1),
        run.issued() == i + 1,
        run.is_aborted(),
{
    assert(run.commands_spec()[i] is DeactivateScene);
    assert(fatal_at(run.commands_spec(), run.outcomes_spec(), i));
    lemma_abort_stops_run(run, i);
}

/// The ordered run over the materialized connectors.
pub struct Orchestrator {
    connectors: Vec<ConnectorConfig>,
    next: usize,
    failed: bool,
}

impl Orchestrator {
    /// The materialized connectors, in the order they are driven.
    pub closed spec fn connectors_spec(&self) -> Seq<ConnectorConfig> {
        self.connectors@
    }

    /// How many connectors were handed out so far.
    pub closed spec fn position(&self) -> int {
        self.next as int
    }

    /// Whether some connector's verify or apply failed.
    pub closed spec fn has_failed(&self) -> bool {
        self.failed
    }

    pub closed spec fn wf(&self) -> bool {
        self.next <= self.connectors@.len()
    }

    /// Start a run over a fully materialized connector list.
    pub fn new(connectors: Vec<ConnectorConfig>) -> (r: Orchestrator)
        ensures
            r.wf(),
            r.connectors_spec() == connectors@,
            r.position() == 0,
            !r.has_failed(),
    {
        Orchestrator { connectors, next: 0, failed: false }
    }

    /// The connector to verify and apply next, or `None` when every
    /// connector was driven or an earlier one failed — a failure in one
    /// connector means no later connector is attempted.
    pub fn current(&self) -> (r: Option<&ConnectorConfig>)
        requires
            self.wf(),
        ensures
            (self.has_failed() || self.position() >= self.connectors_spec().len()) ==> r is None,
            !(self.has_failed() || self.position() >= self.connectors_spec().len()) ==> (r
                matches Some(c) && *c == self.connectors_spec()[self.position()]),
    {
        if self.failed || self.next >= self.connectors.len() {
            None
        } else {
            Some(&self.connectors[self.next])
        }
    }

    /// Record whether the current connector's verify-then-apply succeeded.
    pub fn advance(&mut self, ok: bool)
        requires
            old(self).wf(),
            !old(self).has_failed(),
            old(self).position() < old(self).connectors_spec().len(),
        ensures
            final(self).wf(),
            final(self).connectors_spec() == old(self).connectors_spec(),
            ok ==> final(self).position() == old(self).position() + 1 && !final(self).has_failed(),
            !ok ==> final(self).has_failed() && final(self).position() == old(self).position(),
    {
        if ok {
            let _len = self.connectors.len();
            self.next = self.next + 1;
        } else {
            self.failed = true;
        }
    }
}

} // verus!
