//! The vocabulary of backend requests a plan can ask a transport to perform.
use vstd::prelude::*;

verus! {

/// One concrete request against a backend.  A connector's `plan` turns its
/// desired state into a sequence of these; the caller then carries each one
/// over the matching transport (HTTP, registry write, process invocation) in
/// order.  The library itself never performs them.
#[derive(Debug, Clone, PartialEq, Eq)]
pub enum Command {
    /// Ask the browser backend to switch to the theme with this identifier.
    SetTheme { id: String },
    /// Ask the lighting backend to activate the scene with this identifier.
    ActivateScene { id: String },
    /// Ask the lighting backend to deactivate the scene with this identifier.
    DeactivateScene { id: String },
    /// Write a boolean-equivalent flag of the personalization store.
    SetPersonalizeFlag { name: String, value: u32 },
    /// Run the theme file at this path as a trusted local script.
    RunThemeFile { path: String },
    /// Write the cursor "scheme source" marker of the personalization store.
    SetSchemeSource { value: u32 },
    /// Write the active cursor scheme name of the personalization store.
    SetActiveSchemeName { name: String },
    /// Write one per-role cursor slot; an empty file means the system default.
    SetCursorSlot { role: String, file: String },
    /// Broadcast a session-wide "cursors changed" notification.
    NotifyCursorsChanged,
    /// Ask the wallpaper engine to show the wallpaper at `path` on `display`.
    OpenWallpaper { path: String, display: u8 },
    /// Ask the wallpaper engine to clear the wallpaper on `display`.
    RemoveWallpaper { display: u8 },
}

impl Command {
    /// Whether a failed attempt at this request aborts the rest of the run.
    /// Only the "cursors changed" notification is advisory: the writes it
    /// announces have already succeeded, so its failure is not propagated.
    pub open spec fn spec_failure_aborts(&self) -> bool {
        !(self is NotifyCursorsChanged)
    }

    pub fn failure_aborts(&self) -> (r: bool)
        ensures
            r == self.spec_failure_aborts(),
    {
        !matches!(self, Command::NotifyCursorsChanged)
    }
}

} // verus!
