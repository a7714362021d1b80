//! The browser-theme connector.
//!
//! Drives a browser theme switcher reachable over HTTP at a configured
//! address.  Its one desired-state field is the theme to set; the backend has
//! no documented default, so `Reset` is not representable for this field and
//! the materializer never produces it.
use vstd::prelude::*;

use crate::command::Command;
use crate::connectors::Connector;
use crate::tristate::TriState;

verus! {

/// Errors of the browser-theme connector.
#[derive(Debug, Clone, Copy, PartialEq, Eq, Structural)]
pub enum PprefoxError {
    /// No backend address was configured.
    MissingEndpoint,
    /// The backend was reachable but its listing could not be understood.
    ExtensionFailure,
}

impl PprefoxError {
    /// The human-readable description of this error.
    pub fn message(&self) -> (r: String)
        ensures
            *self is MissingEndpoint ==> r@ == "No pprefox endpoint selected"@,
            *self is ExtensionFailure ==> r@ == "Extension request failed"@,
    {
        match self {
            PprefoxError::MissingEndpoint => "No pprefox endpoint selected".to_owned(),
            PprefoxError::ExtensionFailure => "Extension request failed".to_owned(),
        }
    }
}

/// One browser-theme backend instance.
#[derive(Debug, Clone, PartialEq, Eq)]
pub struct Pprefox {
    /// The base network address of the backend, when one was configured.
    pub endpoint: Option<String>,
    /// The theme to apply, resolved to a backend identifier.  `Reset` is
    /// never legal here.
    pub theme_id: TriState,
}

impl Pprefox {
    /// The configured address, or the error `verify` and `plan` owe when
    /// none was configured.
    fn get_endpoint(&self) -> (r: Result<String, PprefoxError>)
        ensures
            self.endpoint matches Some(e) ==> r matches Ok(s) && s == e,
            self.endpoint is None ==> r == Err::<String, PprefoxError>(
                PprefoxError::MissingEndpoint,
            ),
    {
        match &self.endpoint {
            Some(endpoint) => Ok(endpoint.clone()),
            None => Err(PprefoxError::MissingEndpoint),
        }
    }

    /// Build the live name-to-identifier mapping from the backend's theme
    /// listing.  `response` is the decoded listing as (name, identifier)
    /// pairs, or `None` when the reply could not be decoded, which counts as
    /// a backend failure distinct from an unreachable backend.
    pub fn get_available_themes(&self, response: Option<Vec<(String, String)>>) -> (r: Result<
        Vec<(String, String)>,
        PprefoxError,
    >)
        ensures
            self.endpoint is None ==> r == Err::<Vec<(String, String)>, PprefoxError>(
                PprefoxError::MissingEndpoint,
            ),
            self.endpoint is Some && response is None ==> r == Err::<
                Vec<(String, String)>,
                PprefoxError,
            >(PprefoxError::ExtensionFailure),
            self.endpoint is Some ==> (response matches Some(v) ==> (r matches Ok(m) && m@
                == v@)),
    {
        let _endpoint = self.get_endpoint()?;
        match response {
            Some(themes) => Ok(themes),
            None => Err(PprefoxError::ExtensionFailure),
        }
    }
}

impl Connector for Pprefox {
    type Err = PprefoxError;

    type Live = ();

    open spec fn blank(&self) -> bool {
        self.endpoint is None && self.theme_id is Unset
    }

    open spec fn wf(&self) -> bool {
        !(self.theme_id is Reset)
    }

    /// Constructing a browser-theme connector needs no discovery, so it
    /// always yields the blank connector.
    open spec fn construct_spec(r: Result<Pprefox, PprefoxError>) -> bool {
        r matches Ok(c) && c.blank()
    }

    open spec fn verify_spec(&self, r: Result<(), PprefoxError>) -> bool {
        match self.endpoint {
            Some(_) => r is Ok,
            None => r == Err::<(), PprefoxError>(PprefoxError::MissingEndpoint),
        }
    }

    open spec fn live_wf(&self, live: &()) -> bool {
        true
    }

    open spec fn plan_spec(&self, live: &(), r: Result<Vec<Command>, PprefoxError>) -> bool {
        match self.theme_id {
            TriState::Unset => r matches Ok(c) && c@.len() == 0,
            TriState::Reset => true,
            TriState::Named(id) => match self.endpoint {
                Some(_) => r matches Ok(c) && c@.len() == 1 && (c@[0] matches Command::SetTheme {
                    id: cid,
                } && cid == id),
                None => r == Err::<Vec<Command>, PprefoxError>(PprefoxError::MissingEndpoint),
            },
        }
    }

    fn new() -> (r: Result<Self, PprefoxError>) {
        Ok(Pprefox { endpoint: None, theme_id: TriState::Unset })
    }

    fn verify(&self) -> (r: Result<(), PprefoxError>) {
        if self.endpoint.is_some() {
            Ok(())
        } else {
            Err(PprefoxError::MissingEndpoint)
        }
    }

    fn plan(&self, live: &()) -> (r: Result<Vec<Command>, PprefoxError>) {
        match &self.theme_id {
            TriState::Named(theme) => {
                let _endpoint = self.get_endpoint()?;
                let mut cmds: Vec<Command> = Vec::new();
                cmds.push(Command::SetTheme { id: theme.clone() });
                Ok(cmds)
            },
            _ => Ok(Vec::new()),
        }
    }
}

} // verus!
