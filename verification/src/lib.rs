//! A one-shot tool that applies a declarative appearance configuration to a
//! set of independent backends: a browser theme switcher, an LED lighting
//! controller, the OS personalization store, and a wallpaper engine.
//!
//! The library holds the decision logic: the tri-state desired-state model,
//! name resolution against live listings, the per-connector planning of
//! backend requests, the materialization of parsed configuration into
//! connectors, and the sequencing policy of a run.  The transports that carry
//! the planned requests to the backends (HTTP, the OS registry, process
//! invocation) live outside the library and only hand plain values in and out.
use vstd::prelude::*;

pub mod command;
pub mod connectors;
pub mod materialize;
pub mod orchestrator;
pub mod resolve;
pub mod toml;
pub mod tristate;

verus! {

} // verus!
