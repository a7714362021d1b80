//! The lighting-scene connector.
//!
//! Drives an LED lighting controller reachable over HTTP at a configured
//! address.  Its one desired-state field is the scene to activate; `Reset`
//! means "deactivate every scene", which needs the live scene listing at
//! planning time because it depends on the backend's current state.
use vstd::prelude::*;

use crate::command::Command;
use crate::connectors::Connector;
use crate::tristate::TriState;

verus! {

/// Errors of the lighting-scene connector.
#[derive(Debug, Clone, Copy, PartialEq, Eq, Structural)]
pub enum LedfxError {
    /// No backend address was configured.
    MissingEndpoint,
    /// The backend was reachable but its reply carried no usable scene
    /// collection.
    ServerFailure,
}

impl LedfxError {
    /// The human-readable description of this error.
    pub fn message(&self) -> (r: String)
        ensures
            *self is MissingEndpoint ==> r@ == "No ledfx endpoint selected"@,
            *self is ServerFailure ==> r@ == "LEDFX request failed"@,
    {
        match self {
            LedfxError::MissingEndpoint => "No ledfx endpoint selected".to_owned(),
            LedfxError::ServerFailure => "LEDFX request failed".to_owned(),
        }
    }
}

/// One lighting backend instance.
#[derive(Debug, Clone, PartialEq, Eq)]
pub struct Ledfx {
    /// The base network address of the backend, when one was configured.
    pub endpoint: Option<String>,
    /// The scene to apply: a resolved scene identifier, `Reset` to
    /// deactivate all scenes, or `Unset` to leave the lights alone.
    pub scene_id: TriState,
}

impl Ledfx {
    /// The configured address, or the error owed when none was configured.
    fn get_endpoint(&self) -> (r: Result<String, LedfxError>)
        ensures
            self.endpoint matches Some(e) ==> r matches Ok(s) && s == e,
            self.endpoint is None ==> r == Err::<String, LedfxError>(LedfxError::MissingEndpoint),
    {
        match &self.endpoint {
            Some(endpoint) => Ok(endpoint.clone()),
            None => Err(LedfxError::MissingEndpoint),
        }
    }

    /// Build the live name-to-identifier mapping from the backend's scene
    /// listing.  `response` is the decoded scene collection as (identifier,
    /// name) pairs in listing order, or `None` when the reply was malformed
    /// or carried no scene collection, which is a backend failure distinct
    /// from an unreachable backend.
    pub fn get_available_scenes(&self, response: Option<Vec<(String, String)>>) -> (r: Result<
        Vec<(String, String)>,
        LedfxError,
    >)
        ensures
            self.endpoint is None ==> r == Err::<Vec<(String, String)>, LedfxError>(
                LedfxError::MissingEndpoint,
            ),
            self.endpoint is Some && response is None ==> r == Err::<
                Vec<(String, String)>,
                LedfxError,
            >(LedfxError::ServerFailure),
            self.endpoint is Some ==> (response matches Some(v) ==> (r matches Ok(m) && m@.len()
                == v@.len() && (forall|i: int|
                0 <= i < v@.len() ==> (#[trigger] m@[i]).0 == v@[i].1 && m@[i].1 == v@[i].0))),
    {
        let _endpoint = self.get_endpoint()?;
        match response {
            Some(scenes) => {
                let mut mapping: Vec<(String, String)> = Vec::new();
                let mut i: usize = 0;
                while i < scenes.len()
                    invariant
                        i <= scenes.len(),
                        mapping@.len() == i,
                        forall|j: int|
                            0 <= j < i ==> (#[trigger] mapping@[j]).0 == scenes@[j].1
                                && mapping@[j].1 == scenes@[j].0,
                    decreases scenes.len() - i,
                {
                    mapping.push((scenes[i].1.clone(), scenes[i].0.clone()));
                    i = i + 1;
                }
                Ok(mapping)
            },
            None => Err(LedfxError::ServerFailure),
        }
    }

    /// Whether planning this connector needs the live scene listing: only a
    /// `Reset` fetches it, and only once the address check can succeed.  An
    /// `Unset` field causes no backend request at all, the listing query
    /// included.
    pub fn needs_live_scenes(&self) -> (r: bool)
        ensures
            r == (self.scene_id is Reset && self.endpoint is Some),
    {
        matches!(self.scene_id, TriState::Reset) && self.endpoint.is_some()
    }
}

impl Connector for Ledfx {
    type Err = LedfxError;

    type Live = Option<Vec<(String, String)>>;

    open spec fn blank(&self) -> bool {
        self.endpoint is None && self.scene_id is Unset
    }

    open spec fn wf(&self) -> bool {
        true
    }

    /// Constructing a lighting connector needs no discovery, so it always
    /// yields the blank connector.
    open spec fn construct_spec(r: Result<Ledfx, LedfxError>) -> bool {
        r matches Ok(c) && c.blank()
    }

    open spec fn verify_spec(&self, r: Result<(), LedfxError>) -> bool {
        match self.endpoint {
            Some(_) => r is Ok,
            None => r == Err::<(), LedfxError>(LedfxError::MissingEndpoint),
        }
    }

    open spec fn live_wf(&self, live: &Option<Vec<(String, String)>>) -> bool {
        (self.scene_id is Reset && self.endpoint is Some) ==> live is Some
    }

    open spec fn plan_spec(&self, live: &Option<Vec<(String, String)>>, r: Result<
        Vec<Command>,
        LedfxError,
    >) -> bool {
        match self.scene_id {
            TriState::Unset => r matches Ok(c) && c@.len() == 0,
            TriState::Named(id) => match self.endpoint {
                Some(_) => r matches Ok(c) && c@.len() == 1 && (c@[0]
                    matches Command::ActivateScene { id: cid } && cid == id),
                None => r == Err::<Vec<Command>, LedfxError>(LedfxError::MissingEndpoint),
            },
            TriState::Reset => match self.endpoint {
                Some(_) => (*live matches Some(listing) ==> (r matches Ok(c) && c@.len()
                    == listing@.len() && (forall|i: int|
                    0 <= i < listing@.len() ==> ((#[trigger] c@[i])
                        matches Command::DeactivateScene { id } && id == listing@[i].1)))),
                None => r == Err::<Vec<Command>, LedfxError>(LedfxError::MissingEndpoint),
            },
        }
    }

    fn new() -> (r: Result<Self, LedfxError>) {
        Ok(Ledfx { endpoint: None, scene_id: TriState::Unset })
    }

    fn verify(&self) -> (r: Result<(), LedfxError>) {
        if self.endpoint.is_some() {
            Ok(())
        } else {
            Err(LedfxError::MissingEndpoint)
        }
    }

    fn plan(&self, live: &Option<Vec<(String, String)>>) -> (r: Result<Vec<Command>, LedfxError>) {
        match &self.scene_id {
            TriState::Unset => Ok(Vec::new()),
            TriState::Named(scene) => {
                let _endpoint = self.get_endpoint()?;
                let mut cmds: Vec<Command> = Vec::new();
                cmds.push(Command::ActivateScene { id: scene.clone() });
                Ok(cmds)
            },
            TriState::Reset => {
                let _endpoint = self.get_endpoint()?;
                match live {
                    Some(listing) => {
                        let mut cmds: Vec<Command> = Vec::new();
                        let mut i: usize = 0;
                        while i < listing.len()
                            invariant
                                i <= listing.len(),
                                cmds@.len() == i,
                                forall|j: int|
                                    0 <= j < i ==> ((#[trigger] cmds@[j])
                                        matches Command::DeactivateScene { id } && id
                                        == listing@[j].1),
                            decreases listing.len() - i,
                        {
                            cmds.push(Command::DeactivateScene { id: listing[i].1.clone() });
                            i = i + 1;
                        }
                        Ok(cmds)
                    },
                    None => {
                        proof {
                            assert(false);
                        }
                        Ok(Vec::new())
                    },
                }
            },
        }
    }
}

} // verus!
