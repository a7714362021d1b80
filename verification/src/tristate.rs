//! The tri-state desired-state model shared by every connector field.
use vstd::prelude::*;

verus! {

/// A desired-state field of a connector.  `Unset` means "do not touch this
/// setting"; `Reset` is an explicit command to clear or restore the backend's
/// default; `Named` carries a backend identifier already resolved from a
/// human-readable name.  `Unset` and `Reset` are distinguished because some
/// backends have no meaningful default and must simply be left alone.
#[derive(Debug, Clone, PartialEq, Eq)]
pub enum TriState {
    Unset,
    Reset,
    Named(String),
}

impl TriState {
    /// True when the field asks for nothing at all.
    pub open spec fn spec_is_unset(&self) -> bool {
        self is Unset
    }

    pub fn is_unset(&self) -> (r: bool)
        ensures
            r == self.spec_is_unset(),
    {
        matches!(self, TriState::Unset)
    }
}

} // verus!
