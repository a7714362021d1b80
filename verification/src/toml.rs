//! The parsed declarative configuration, as the loader hands it over: an
//! ordered document of independent, optional sections, one per connector
//! kind.  The library consumes this as an already-parsed, in-memory
//! structure; reading and decoding the document's syntax happens outside.
use vstd::prelude::*;

verus! {

/// One browser-theme request.  The theme name is required: the backend has
/// no default to reset to, so an entry without a theme would ask nothing.
#[derive(Debug, Clone, PartialEq, Eq)]
pub struct Pprefox {
    pub comment: Option<String>,
    pub endpoint: Option<String>,
    pub theme_name: String,
}

/// One personalization request.
#[derive(Debug, Clone, PartialEq, Eq)]
pub struct Windows {
    pub comment: Option<String>,
    pub cursor_scheme: Option<String>,
}

/// One wallpaper request: a display index (defaulting to the first display)
/// and a wallpaper name, where an absent name means "clear this display".
#[derive(Debug, Clone, PartialEq, Eq)]
pub struct Wpeng {
    pub comment: Option<String>,
    pub name: Option<String>,
    pub desktop_id: Option<u8>,
}

/// One lighting request: an absent scene name means "deactivate all scenes".
#[derive(Debug, Clone, PartialEq, Eq)]
pub struct Ledfx {
    pub comment: Option<String>,
    pub endpoint: Option<String>,
    pub scene_name: Option<String>,
}

/// The whole configuration document.
#[derive(Debug, Clone, PartialEq, Eq)]
pub struct Config {
    pub name: Option<String>,
    pub author: Option<String>,
    pub pprefox: Option<Vec<Pprefox>>,
    pub windows: Option<Vec<Windows>>,
    pub wpeng: Option<Vec<Wpeng>>,
    pub ledfx: Option<Vec<Ledfx>>,
}

} // verus!
