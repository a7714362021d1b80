//! The uniform connector contract, and the closed set of connector kinds a
//! run can drive.
//!
//! A connector wraps one backend behind a common lifecycle: it is constructed
//! blank by its kind's factory, populated once by the materializer, checked by
//! `verify`, and consumed by planning the backend requests its desired state
//! implies.  The requests themselves are carried to the backend by the caller.
use vstd::prelude::*;

use crate::command::Command;

pub mod ledfx;
pub mod pprefox;
pub mod windows;
pub mod wpeng;

verus! {

/// The uniform lifecycle of one configurable backend instance.
///
/// `Err` is the connector kind's own error set; `Live` is whatever freshly
/// fetched backend state the kind needs at planning time (listings, stored
/// scheme data), handed in by the caller as plain values.
pub trait Connector where Self: Sized {
    type Err;

    type Live;

    /// Every desired-state field of the connector is `Unset`.
    spec fn blank(&self) -> bool;

    /// The structural invariant of the connector's desired-state fields.
    spec fn wf(&self) -> bool;

    /// The exact outcome `new` owes: a kind that performs no discovery to
    /// reach its backend always yields a blank connector, and a kind whose
    /// construction can fail says exactly when.
    spec fn construct_spec(r: Result<Self, Self::Err>) -> bool;

    /// The exact outcome `verify` owes for this connector state.
    spec fn verify_spec(&self, r: Result<(), Self::Err>) -> bool;

    /// Whether the live inputs provide what this connector's state needs.
    spec fn live_wf(&self, live: &Self::Live) -> bool;

    /// The exact relation between the connector's state, the live inputs,
    /// and the planned request sequence.
    spec fn plan_spec(&self, live: &Self::Live, r: Result<Vec<Command>, Self::Err>) -> bool;

    /// Allocate a connector with every desired-state field `Unset`.
    fn new() -> (r: Result<Self, Self::Err>)
        ensures
            Self::construct_spec(r),
            r matches Ok(c) ==> c.blank() && c.wf(),
    ;

    /// Check the preconditions to attempt an apply, mutating nothing.
    fn verify(&self) -> (r: Result<(), Self::Err>)
        ensures
            self.verify_spec(r),
    ;

    /// Compute the backend requests the desired state implies, in the order
    /// they must be issued.  A connector whose fields are all `Unset` plans
    /// no request at all, for every connector kind alike.
    fn plan(&self, live: &Self::Live) -> (r: Result<Vec<Command>, Self::Err>)
        requires
            self.wf(),
            self.live_wf(live),
        ensures
            self.plan_spec(live, r),
            self.blank() ==> (r matches Ok(cmds) && cmds@.len() == 0),
    ;
}

/// The closed set of connector kinds, each carrying its materialized
/// desired-state payload.  The orchestrator pattern-matches on this to drive
/// the uniform lifecycle without virtual dispatch.
#[derive(Debug, Clone, PartialEq, Eq)]
pub enum ConnectorConfig {
    Pprefox(pprefox::Pprefox),
    Windows(windows::Windows),
    Wpeng(wpeng::Wpeng),
    Ledfx(ledfx::Ledfx),
}

} // verus!
