//! The wallpaper-engine connector.
//!
//! Drives an externally installed wallpaper engine through its control
//! process.  Its desired state is a mapping from display index to a
//! per-display wallpaper field: `None` clears that display's wallpaper, a
//! name selects one from the engine's catalogue, and a display absent from
//! the mapping is left alone.  Locating the engine is a chain of discovery
//! steps (its configuration file, then its executable, then its catalogue)
//! performed against the local machine; each step's outcome reaches the
//! library as a plain value.
use vstd::prelude::*;
use vstd::pervasive::VecAdditionalExecFns;

use crate::command::Command;
use crate::resolve::resolved;
use crate::resolve::lookup;

verus! {

/// Errors of the wallpaper-engine connector.
#[derive(Debug, Clone, Copy, PartialEq, Eq, Structural)]
pub enum WpengError {
    /// The engine's configuration file could not be located.
    ErrorDetectingConfig,
    /// The engine's executable could not be located from its configuration.
    ErrorDetectingExe,
    /// The engine's wallpaper catalogue could not be located.
    ErrorDetectingWallpapers,
    /// The engine's control process could not be invoked.  Produced by the
    /// transport that carries the planned requests, never by planning.
    ErrorLaunchingProcess,
    /// A named wallpaper is absent from the current catalogue.
    MissingWallpaper,
}

impl WpengError {
    /// The human-readable description of this error.
    pub fn message(&self) -> (r: String)
        ensures
            *self is ErrorDetectingConfig ==> r@ == "Error detecting wallpaper engine config"@,
            *self is ErrorDetectingExe ==> r@ == "Error detecting wallpaper engine exe"@,
            *self is ErrorDetectingWallpapers ==> r@
                == "Error detecting wallpaper engine wallpapers"@,
            *self is ErrorLaunchingProcess ==> r@
                == "Error launching wallpaper engine control process"@,
            *self is MissingWallpaper ==> r@ == "Selected a missing wallpaper"@,
    {
        match self {
            WpengError::ErrorDetectingConfig => "Error detecting wallpaper engine config".to_owned(
            ),
            WpengError::ErrorDetectingExe => "Error detecting wallpaper engine exe".to_owned(),
            WpengError::ErrorDetectingWallpapers => {
                "Error detecting wallpaper engine wallpapers".to_owned()
            },
            WpengError::ErrorLaunchingProcess => {
                "Error launching wallpaper engine control process".to_owned()
            },
            WpengError::MissingWallpaper => "Selected a missing wallpaper".to_owned(),
        }
    }
}

/// The wallpaper entry stored for `screen`: the first pair carrying that
/// display index, or `None` when the display is not in the mapping.
pub open spec fn wp_lookup(m: Seq<(u8, Option<String>)>, screen: u8) -> Option<Option<String>>
    decreases m.len(),
{
    if m.len() == 0 {
        None
    } else if m.first().0 == screen {
        Some(m.first().1)
    } else {
        wp_lookup(m.drop_first(), screen)
    }
}

/// The mapping after storing `value` for `screen`: the existing pair for
/// that display is replaced in place, or a new pair is appended.
pub open spec fn wp_insert(
    m: Seq<(u8, Option<String>)>,
    screen: u8,
    value: Option<String>,
) -> Seq<(u8, Option<String>)>
    decreases m.len(),
{
    if m.len() == 0 {
        seq![(screen, value)]
    } else if m.first().0 == screen {
        seq![(screen, value)] + m.drop_first()
    } else {
        seq![m.first()] + wp_insert(m.drop_first(), screen, value)
    }
}

/// One wallpaper-engine instance.
#[derive(Debug, Clone, PartialEq, Eq)]
pub struct Wpeng {
    /// Display index to desired wallpaper: `None` clears the display,
    /// a name selects from the catalogue.  Displays to leave alone are
    /// simply absent.
    pub wallpapers: Vec<(u8, Option<String>)>,
    /// The discovered path of the engine's control executable, used by the
    /// transport that performs the planned requests.
    pub exe: String,
}

impl Wpeng {
    /// Each display index occurs at most once in the mapping.
    pub open spec fn wf(&self) -> bool {
        forall|i: int, j: int|
            0 <= i < j < self.wallpapers@.len() ==> (#[trigger] self.wallpapers@[i]).0 != (
            #[trigger] self.wallpapers@[j]).0
    }

    /// Construct a connector with an empty mapping from the outcomes of the
    /// discovery chain: the engine's configuration file and, from it, the
    /// engine's executable.  Each step fails independently.
    pub fn new(config: Option<String>, exe: Option<String>) -> (r: Result<Wpeng, WpengError>)
        ensures
            config is None ==> r == Err::<Wpeng, WpengError>(WpengError::ErrorDetectingConfig),
            config is Some && exe is None ==> r == Err::<Wpeng, WpengError>(
                WpengError::ErrorDetectingExe,
            ),
            config is Some ==> (exe matches Some(e) ==> (r matches Ok(c) && c.wallpapers@.len()
                == 0 && c.exe == e && c.wf())),
    {
        if config.is_none() {
            return Err(WpengError::ErrorDetectingConfig);
        }
        match exe {
            None => Err(WpengError::ErrorDetectingExe),
            Some(exe) => Ok(Wpeng { wallpapers: Vec::new(), exe }),
        }
    }

    /// Check that the engine can still be located: `config` is the fresh
    /// outcome of the configuration-file discovery step.
    pub fn verify(&self, config: Option<String>) -> (r: Result<(), WpengError>)
        ensures
            config is Some ==> r is Ok,
            config is None ==> r == Err::<(), WpengError>(WpengError::ErrorDetectingConfig),
    {
        match config {
            Some(_) => Ok(()),
            None => Err(WpengError::ErrorDetectingConfig),
        }
    }

    /// Store the desired wallpaper for a display, replacing any earlier
    /// entry for the same display.
    pub fn set_wallpaper(&mut self, screen: u8, wallpaper: Option<String>)
        requires
            old(self).wf(),
        ensures
            final(self).wf(),
            final(self).exe == old(self).exe,
            final(self).wallpapers@ == wp_insert(old(self).wallpapers@, screen, wallpaper),
    {
        let ghost m = self.wallpapers@;
        let mut idx: Option<usize> = None;
        let mut i: usize = 0;
        while i < self.wallpapers.len()
            invariant
                i <= m.len(),
                self.wallpapers@ == m,
                idx matches Some(k) ==> 0 <= k < i && m[k as int].0 == screen && (forall|j: int|
                    0 <= j < k ==> (#[trigger] m[j]).0 != screen),
                idx is None ==> forall|j: int| 0 <= j < i ==> (#[trigger] m[j]).0 != screen,
            decreases m.len() - i,
        {
            if idx.is_none() && self.wallpapers[i].0 == screen {
                idx = Some(i);
            }
            i = i + 1;
        }
        match idx {
            Some(k) => {
                self.wallpapers.set(k, (screen, wallpaper));
                proof {
                    lemma_wp_insert_found(m, screen, self.wallpapers@[k as int].1, k as int);
                    assert(forall|a: int|
                        0 <= a < m.len() && a != k ==> self.wallpapers@[a] == m[a]);
                }
            },
            None => {
                self.wallpapers.push((screen, wallpaper));
                proof {
                    lemma_wp_insert_absent(m, screen, self.wallpapers@[m.len() as int].1);
                }
            },
        }
    }

    /// The stored entry for a display, if the mapping holds one.
    pub fn get_wallpaper(self, screen: u8) -> (r: Option<Option<String>>)
        ensures
            r == wp_lookup(self.wallpapers@, screen),
    {
        let ghost m = self.wallpapers@;
        proof {
            assert(m.subrange(0, m.len() as int) =~= m);
        }
        let mut i: usize = 0;
        while i < self.wallpapers.len()
            invariant
                i <= m.len(),
                self.wallpapers@ == m,
                wp_lookup(m, screen) == wp_lookup(m.subrange(i as int, m.len() as int), screen),
            decreases m.len() - i,
        {
            proof {
                let rest = m.subrange(i as int, m.len() as int);
                assert(rest.first() == m[i as int]);
                assert(rest.drop_first() =~= m.subrange(i as int + 1, m.len() as int));
            }
            if self.wallpapers[i].0 == screen {
                return match &self.wallpapers[i].1 {
                    Some(name) => Some(Some(name.clone())),
                    None => Some(None),
                };
            }
            i = i + 1;
        }
        proof {
            assert(m.subrange(m.len() as int, m.len() as int) =~= Seq::<
                (u8, Option<String>),
            >::empty());
        }
        None
    }

    /// The engine's current wallpaper catalogue as a name-to-path mapping.
    /// `detected` is the outcome of the catalogue discovery step, already
    /// flattened to (name, path) pairs.
    pub fn get_wallpaper_options(self, detected: Option<Vec<(String, String)>>) -> (r: Result<
        Vec<(String, String)>,
        WpengError,
    >)
        ensures
            detected is None ==> r == Err::<Vec<(String, String)>, WpengError>(
                WpengError::ErrorDetectingWallpapers,
            ),
            detected matches Some(v) ==> r matches Ok(m) && m@ == v@,
    {
        match detected {
            Some(catalogue) => Ok(catalogue),
            None => Err(WpengError::ErrorDetectingWallpapers),
        }
    }

    /// Compute the engine requests the mapping implies, one per entry in
    /// stored order, against the current catalogue: a `None` entry clears
    /// its display, a named entry shows the catalogued wallpaper.  A named
    /// entry absent from the catalogue fails the whole plan, and no request
    /// is issued for any entry.  An empty mapping plans no request at all.
    pub fn plan(&self, catalogue: &Vec<(String, String)>) -> (r: Result<Vec<Command>, WpengError>)
        ensures
            r is Err <==> (exists|i: int|
                0 <= i < self.wallpapers@.len() && ((#[trigger] self.wallpapers@[i]).1
                    matches Some(n) && resolved(catalogue@, n@) is None)),
            r is Err ==> r == Err::<Vec<Command>, WpengError>(WpengError::MissingWallpaper),
            r matches Ok(c) ==> c@.len() == self.wallpapers@.len() && (forall|i: int|
                0 <= i < self.wallpapers@.len() ==> plan_entry_ok(
                    catalogue@,
                    (#[trigger] self.wallpapers@[i]),
                    c@[i],
                )),
    {
        let mut cmds: Vec<Command> = Vec::new();
        let mut i: usize = 0;
        while i < self.wallpapers.len()
            invariant
                i <= self.wallpapers@.len(),
                cmds@.len() == i,
                forall|j: int|
                    0 <= j < i ==> plan_entry_ok(
                        catalogue@,
                        (#[trigger] self.wallpapers@[j]),
                        cmds@[j],
                    ),
                forall|j: int|
                    0 <= j < i ==> ((#[trigger] self.wallpapers@[j]).1 matches Some(n) ==> resolved(
                        catalogue@,
                        n@,
                    ) is Some),
            decreases self.wallpapers@.len() - i,
        {
            let display = self.wallpapers[i].0;
            match &self.wallpapers[i].1 {
                None => {
                    cmds.push(Command::RemoveWallpaper { display });
                },
                Some(name) => {
                    match lookup(catalogue, name) {
                        Some(path) => {
                            cmds.push(Command::OpenWallpaper { path, display });
                        },
                        None => {
                            return Err(WpengError::MissingWallpaper);
                        },
                    }
                },
            }
            i = i + 1;
        }
        Ok(cmds)
    }
}

/// The request owed for one mapping entry: clear the display for a `None`
/// entry, show the wallpaper the catalogue pairs with the name otherwise.
pub open spec fn plan_entry_ok(
    catalogue: Seq<(String, String)>,
    entry: (u8, Option<String>),
    cmd: Command,
) -> bool {
    match entry.1 {
        None => cmd matches Command::RemoveWallpaper { display } && display == entry.0,
        Some(n) => cmd matches Command::OpenWallpaper { path, display } && display == entry.0
            && resolved(catalogue, n@) == Some(path),
    }
}

/// Storing a display that the mapping already holds replaces its pair in
/// place.
proof fn lemma_wp_insert_found(
    m: Seq<(u8, Option<String>)>,
    screen: u8,
    value: Option<String>,
    i: int,
)
    requires
        0 <= i < m.len(),
        m[i].0 == screen,
        forall|j: int| 0 <= j < i ==> (#[trigger] m[j]).0 != screen,
    ensures
        wp_insert(m, screen, value) =~= m.update(i, (screen, value)),
    decreases i,
{
    if i == 0 {
    } else {
        assert(m.first().0 != screen);
        lemma_wp_insert_found(m.drop_first(), screen, value, i - 1);
        assert(forall|j: int|
            0 <= j < i - 1 ==> (#[trigger] m.drop_first()[j]).0 == m[j + 1].0);
    }
}

/// Storing a display that the mapping does not hold appends a new pair.
proof fn lemma_wp_insert_absent(m: Seq<(u8, Option<String>)>, screen: u8, value: Option<String>)
    requires
        forall|j: int| 0 <= j < m.len() ==> (#[trigger] m[j]).0 != screen,
    ensures
        wp_insert(m, screen, value) =~= m.push((screen, value)),
    decreases m.len(),
{
    if m.len() == 0 {
    } else {
        lemma_wp_insert_absent(m.drop_first(), screen, value);
    }
}

} // verus!
