//! The OS-personalization connector.
//!
//! Drives the desktop personalization store: the light-mode and color-accent
//! flags, an optional theme file run as a trusted local script, and the
//! cursor scheme with its fifteen per-role cursor slots.
use vstd::prelude::*;

use crate::command::Command;
use crate::connectors::Connector;
use vstd::string::StrSliceExecFns;

verus! {

/// How many per-cursor-role slots a scheme apply writes, always all of them.
pub const CURSOR_ROLE_COUNT: usize = 15;

/// Splitting a character sequence on a delimiter, in the usual way: the
/// result always holds one piece more than there are delimiters, so an empty
/// input yields one empty piece and adjacent delimiters yield empty pieces.
pub open spec fn split_on(s: Seq<char>, d: char) -> Seq<Seq<char>>
    decreases s.len(),
{
    if s.len() == 0 {
        seq![Seq::<char>::empty()]
    } else if s.first() == d {
        seq![Seq::<char>::empty()] + split_on(s.drop_first(), d)
    } else {
        let rest = split_on(s.drop_first(), d);
        seq![seq![s.first()] + rest.first()] + rest.drop_first()
    }
}

proof fn lemma_split_len(s: Seq<char>, d: char)
    ensures
        split_on(s, d).len() >= 1,
    decreases s.len(),
{
    if s.len() == 0 {
    } else {
        lemma_split_len(s.drop_first(), d);
    }
}

/// A sequence without the delimiter splits into itself as the one piece.
proof fn lemma_split_no_delim(s: Seq<char>, d: char)
    requires
        forall|i: int| 0 <= i < s.len() ==> s[i] != d,
    ensures
        split_on(s, d).len() == 1,
        split_on(s, d)[0] =~= s,
    decreases s.len(),
{
    if s.len() == 0 {
    } else {
        assert(forall|i: int|
            0 <= i < s.drop_first().len() ==> #[trigger] s.drop_first()[i] == s[i + 1]);
        lemma_split_no_delim(s.drop_first(), d);
    }
}

/// Splitting at the first delimiter: the piece before it, then the split of
/// what follows it.
proof fn lemma_split_first_delim(s: Seq<char>, d: char, k: int)
    requires
        0 <= k < s.len(),
        s[k] == d,
        forall|j: int| 0 <= j < k ==> s[j] != d,
    ensures
        split_on(s, d).len() == 1 + split_on(s.subrange(k + 1, s.len() as int), d).len(),
        split_on(s, d)[0] =~= s.subrange(0, k),
        forall|i: int|
            1 <= i < split_on(s, d).len() ==> #[trigger] split_on(s, d)[i] == split_on(
                s.subrange(k + 1, s.len() as int),
                d,
            )[i - 1],
    decreases k,
{
    lemma_split_len(s, d);
    if k == 0 {
        assert(s.first() == d);
        assert(s.drop_first() =~= s.subrange(1, s.len() as int));
    } else {
        assert(s.first() != d);
        let t = s.drop_first();
        assert(forall|i: int| 0 <= i < t.len() ==> #[trigger] t[i] == s[i + 1]);
        lemma_split_first_delim(t, d, k - 1);
        lemma_split_len(t, d);
        assert(t.subrange(k, t.len() as int) =~= s.subrange(k + 1, s.len() as int));
        assert(split_on(s, d)[0] =~= seq![s.first()] + split_on(t, d)[0]);
        assert(seq![s.first()] + t.subrange(0, k - 1) =~= s.subrange(0, k));
    }
}

/// Split a stored per-role cursor-file field on its comma delimiter.
pub fn split_roles(s: &str) -> (r: Vec<String>)
    ensures
        r@.len() == split_on(s@, ',').len(),
        forall|i: int| 0 <= i < r@.len() ==> (#[trigger] r@[i])@ == split_on(s@, ',')[i],
{
    let n = s.unicode_len();
    let mut pieces: Vec<String> = Vec::new();
    let mut start: usize = 0;
    let mut i: usize = 0;
    proof {
        assert(s@.subrange(0, n as int) =~= s@);
    }
    while i < n
        invariant
            0 <= start <= i <= n,
            n == s@.len(),
            forall|j: int| start <= j < i ==> s@[j] != ',',
            split_on(s@, ',').len() == pieces@.len() + split_on(
                s@.subrange(start as int, n as int),
                ',',
            ).len(),
            forall|j: int|
                0 <= j < pieces@.len() ==> (#[trigger] pieces@[j])@ == split_on(s@, ',')[j],
            forall|j: int|
                pieces@.len() <= j < split_on(s@, ',').len() ==> #[trigger] split_on(s@, ',')[j]
                    == split_on(s@.subrange(start as int, n as int), ',')[j - pieces@.len()],
        decreases n - i,
    {
        if s.get_char(i) == ',' {
            let piece = s.substring_char(start, i).to_owned();
            proof {
                let tail = s@.subrange(start as int, n as int);
                assert(forall|j: int|
                    0 <= j < tail.len() ==> #[trigger] tail[j] == s@[start + j]);
                lemma_split_first_delim(tail, ',', i - start);
                assert(tail.subrange(0, i - start) =~= s@.subrange(start as int, i as int));
                assert(tail.subrange(i - start + 1, tail.len() as int) =~= s@.subrange(
                    i as int + 1,
                    n as int,
                ));
                lemma_split_len(s@.subrange(i as int + 1, n as int), ',');
            }
            pieces.push(piece);
            start = i + 1;
        }
        i = i + 1;
    }
    let last = s.substring_char(start, n).to_owned();
    proof {
        let tail = s@.subrange(start as int, n as int);
        assert(forall|j: int| 0 <= j < tail.len() ==> #[trigger] tail[j] == s@[start + j]);
        lemma_split_no_delim(tail, ',');
    }
    pieces.push(last);
    pieces
}

/// A path separator, as the personalization backend's platform accepts them.
pub open spec fn spec_is_sep(c: char) -> bool {
    c == '/' || c == '\\'
}

/// The path with any trailing separators removed, so that a path written
/// with a trailing separator still names its final component.
pub open spec fn spec_trim_seps(p: Seq<char>) -> Seq<char>
    decreases p.len(),
{
    if p.len() > 0 && spec_is_sep(p.last()) {
        spec_trim_seps(p.drop_last())
    } else {
        p
    }
}

/// Whether the path's final component has exactly the theme-file extension:
/// after trailing separators are dropped, the path ends in ".theme" and the
/// character before that suffix exists and is not a separator, so that a bare
/// or hidden ".theme" component does not count.  Only such a path may be run
/// as a theme script.
pub open spec fn spec_has_theme_extension(p: Seq<char>) -> bool {
    let t = spec_trim_seps(p);
    t.len() >= 7 && t.subrange(t.len() - 6, t.len() as int) == ".theme"@ && !spec_is_sep(
        t[t.len() - 7],
    )
}

fn is_sep(c: char) -> (r: bool)
    ensures
        r == spec_is_sep(c),
{
    c == '/' || c == '\\'
}

/// Decide whether a configured theme-file path may be run.
pub fn has_theme_extension(path: &str) -> (r: bool)
    ensures
        r == spec_has_theme_extension(path@),
{
    let n = path.unicode_len();
    let mut e = n;
    proof {
        assert(path@.subrange(0, n as int) =~= path@);
    }
    while e > 0 && is_sep(path.get_char(e - 1))
        invariant
            0 <= e <= n,
            n == path@.len(),
            spec_trim_seps(path@) == spec_trim_seps(path@.subrange(0, e as int)),
        decreases e,
    {
        proof {
            assert(path@.subrange(0, e as int).drop_last() =~= path@.subrange(0, e as int - 1));
        }
        e = e - 1;
    }
    proof {
        assert(spec_trim_seps(path@.subrange(0, e as int)) == path@.subrange(0, e as int));
    }
    let ghost t = spec_trim_seps(path@);
    if e < 7 {
        return false;
    }
    let r = path.get_char(e - 6) == '.' && path.get_char(e - 5) == 't' && path.get_char(e - 4)
        == 'h' && path.get_char(e - 3) == 'e' && path.get_char(e - 2) == 'm' && path.get_char(
        e - 1,
    ) == 'e' && !is_sep(path.get_char(e - 7));
    proof {
        reveal_strlit(".theme");
        assert(t.len() == e);
        assert(forall|j: int| 0 <= j < e ==> #[trigger] t[j] == path@[j]);
        if r {
            assert(t.subrange(t.len() - 6, t.len() as int) =~= ".theme"@);
        } else {
            if t.subrange(t.len() - 6, t.len() as int) == ".theme"@ {
                assert(t.subrange(t.len() - 6, t.len() as int)[0] == '.');
                assert(t.subrange(t.len() - 6, t.len() as int)[1] == 't');
                assert(t.subrange(t.len() - 6, t.len() as int)[2] == 'h');
                assert(t.subrange(t.len() - 6, t.len() as int)[3] == 'e');
                assert(t.subrange(t.len() - 6, t.len() as int)[4] == 'm');
                assert(t.subrange(t.len() - 6, t.len() as int)[5] == 'e');
            }
        }
    }
    r
}

/// The fixed canonical order of the fifteen per-cursor-role slots.
pub open spec fn spec_cursor_role(i: int) -> Seq<char> {
    if i == 0 {
        "Arrow"@
    } else if i == 1 {
        "Help"@
    } else if i == 2 {
        "AppStarting"@
    } else if i == 3 {
        "Wait"@
    } else if i == 4 {
        "Crosshair"@
    } else if i == 5 {
        "IBeam"@
    } else if i == 6 {
        "NWPen"@
    } else if i == 7 {
        "No"@
    } else if i == 8 {
        "SizeNS"@
    } else if i == 9 {
        "SizeWE"@
    } else if i == 10 {
        "SizeNWSE"@
    } else if i == 11 {
        "SizeNESW"@
    } else if i == 12 {
        "SizeAll"@
    } else if i == 13 {
        "UpArrow"@
    } else {
        "Hand"@
    }
}

/// The registry name of the cursor role slot at a canonical position.
pub fn cursor_role(i: usize) -> (r: &'static str)
    requires
        i < 15,
    ensures
        r@ == spec_cursor_role(i as int),
{
    if i == 0 {
        "Arrow"
    } else if i == 1 {
        "Help"
    } else if i == 2 {
        "AppStarting"
    } else if i == 3 {
        "Wait"
    } else if i == 4 {
        "Crosshair"
    } else if i == 5 {
        "IBeam"
    } else if i == 6 {
        "NWPen"
    } else if i == 7 {
        "No"
    } else if i == 8 {
        "SizeNS"
    } else if i == 9 {
        "SizeWE"
    } else if i == 10 {
        "SizeNWSE"
    } else if i == 11 {
        "SizeNESW"
    } else if i == 12 {
        "SizeAll"
    } else if i == 13 {
        "UpArrow"
    } else {
        "Hand"
    }
}

/// Errors of the OS-personalization connector.
#[derive(Debug, Clone, Copy, PartialEq, Eq, Structural)]
pub enum WindowsError {
    /// The named cursor scheme is absent from its provenance's store.
    SchemeNotFound,
}

impl WindowsError {
    /// The human-readable description of this error.
    pub fn message(&self) -> (r: String)
        ensures
            r@ == "cursor scheme not found"@,
    {
        "cursor scheme not found".to_owned()
    }
}

/// A cursor scheme selection, tagged with the provenance that decides which
/// store holds its per-role cursor files and which "scheme source" marker is
/// written.
#[derive(Debug, PartialEq, Eq)]
pub enum CursorScheme {
    /// The built-in default: clear the active scheme and every role slot.
    WindowsDefault,
    /// A scheme of the per-user store.
    UserScheme(String),
    /// A scheme of the system-wide store.
    SystemScheme(String),
}

impl Clone for CursorScheme {
    /// A clone carries the same provenance and the same name.
    fn clone(&self) -> (r: Self)
        ensures
            r == *self,
    {
        match self {
            CursorScheme::WindowsDefault => CursorScheme::WindowsDefault,
            CursorScheme::UserScheme(n) => CursorScheme::UserScheme(n.clone()),
            CursorScheme::SystemScheme(n) => CursorScheme::SystemScheme(n.clone()),
        }
    }
}

/// One OS-personalization instance.
#[derive(Debug, Clone, PartialEq, Eq)]
pub struct Windows {
    /// A theme file to run, only honoured when its extension is exactly the
    /// theme-file extension.
    pub theme_path: Option<String>,
    /// Whether the accent color should be shown on the taskbar and related
    /// surfaces; absent to leave it alone.
    pub enable_color_prevalence: Option<bool>,
    /// Whether applications and the system should use their light modes;
    /// absent to leave it alone.
    pub light_mode: Option<bool>,
    /// The cursor scheme to apply; absent to leave cursors alone.
    pub cursor_scheme: Option<CursorScheme>,
}

/// The boolean-equivalent registry value that stands for a flag state.
pub open spec fn spec_flag(b: bool) -> u32 {
    if b {
        1u32
    } else {
        0u32
    }
}

/// A write of one boolean-equivalent personalization flag.
pub open spec fn flag_cmd(c: Command, name: Seq<char>, v: u32) -> bool {
    c matches Command::SetPersonalizeFlag { name: n, value } && n@ == name && value == v
}

/// The "scheme source" marker written for a cursor scheme's provenance:
/// none, user store, or system store.
pub open spec fn spec_scheme_source(cs: CursorScheme) -> u32 {
    match cs {
        CursorScheme::WindowsDefault => 0u32,
        CursorScheme::UserScheme(_) => 1u32,
        CursorScheme::SystemScheme(_) => 2u32,
    }
}

/// The per-role cursor-file list of a scheme selection: empty for the
/// built-in default, the stored delimited field split on commas otherwise.
pub open spec fn spec_roles(cs: CursorScheme, data: Option<String>) -> Seq<Seq<char>> {
    match cs {
        CursorScheme::WindowsDefault => Seq::empty(),
        _ => match data {
            Some(d) => split_on(d@, ','),
            None => Seq::empty(),
        },
    }
}

/// The cursor file written for a role position: the list entry when the
/// list reaches that far, the empty system-default value for roles beyond
/// the list's length.
pub open spec fn spec_role_file(roles: Seq<Seq<char>>, i: int) -> Seq<char> {
    if 0 <= i < roles.len() {
        roles[i]
    } else {
        Seq::empty()
    }
}

/// A write of the cursor slot at canonical position `i`.
pub open spec fn slot_cmd(c: Command, i: int, roles: Seq<Seq<char>>) -> bool {
    c matches Command::SetCursorSlot { role, file } && role@ == spec_cursor_role(i) && file@
        == spec_role_file(roles, i)
}

/// A write of the active scheme name: the selected scheme's name, or the
/// empty name for the built-in default.
pub open spec fn scheme_name_cmd(cs: CursorScheme, c: Command) -> bool {
    match cs {
        CursorScheme::WindowsDefault => c matches Command::SetActiveSchemeName { name } && name@
            =~= Seq::<char>::empty(),
        CursorScheme::UserScheme(n) => c matches Command::SetActiveSchemeName { name } && name == n,
        CursorScheme::SystemScheme(n) => c matches Command::SetActiveSchemeName { name } && name
            == n,
    }
}

/// The cursor segment of a plan, starting at `off`: the source marker, the
/// active scheme name, exactly fifteen role slots in the fixed canonical
/// order, then the session-wide notification.
pub open spec fn cursor_seg_ok(
    cs: CursorScheme,
    data: Option<String>,
    c: Seq<Command>,
    off: int,
) -> bool {
    (c[off] matches Command::SetSchemeSource { value } && value == spec_scheme_source(cs))
        && scheme_name_cmd(cs, c[off + 1]) && (forall|i: int|
        0 <= i < 15 ==> #[trigger] slot_cmd(c[off + 2 + i], i, spec_roles(cs, data))) && c[off
        + 17] is NotifyCursorsChanged
}

impl Windows {
    /// How many requests the light-mode field plans: its one value is
    /// written to both the app-level and the system-level flag.
    pub open spec fn light_len(&self) -> int {
        if self.light_mode is Some {
            2
        } else {
            0
        }
    }

    /// How many requests the color-accent field plans.
    pub open spec fn color_len(&self) -> int {
        if self.enable_color_prevalence is Some {
            1
        } else {
            0
        }
    }

    /// How many requests the theme-file field plans: one when the path may
    /// be run, none when it is silently skipped.
    pub open spec fn theme_len(&self) -> int {
        if self.theme_path matches Some(p) && spec_has_theme_extension(p@) {
            1
        } else {
            0
        }
    }

    /// Where the cursor segment of a plan starts.
    pub open spec fn cursor_off(&self) -> int {
        self.light_len() + self.color_len() + self.theme_len()
    }

    /// How many requests a plan holds in total.
    pub open spec fn total_len(&self) -> int {
        self.cursor_off() + if self.cursor_scheme is Some {
            18int
        } else {
            0int
        }
    }

    /// Whether planning needs the stored per-role list of a named scheme,
    /// looked up in its provenance's store at planning time.
    pub open spec fn needs_scheme_data(&self) -> bool {
        self.cursor_scheme matches Some(cs) && !(cs is WindowsDefault)
    }

    /// The light-mode writes of a plan, when that field is present.
    pub open spec fn light_ok(&self, c: Seq<Command>) -> bool {
        self.light_mode matches Some(b) ==> (flag_cmd(c[0], "AppsUseLightTheme"@, spec_flag(b))
            && flag_cmd(c[1], "SystemUsesLightTheme"@, spec_flag(b)))
    }

    /// The color-accent write of a plan, when that field is present.
    pub open spec fn color_ok(&self, c: Seq<Command>) -> bool {
        self.enable_color_prevalence matches Some(b) ==> flag_cmd(
            c[self.light_len()],
            "ColorPrevalence"@,
            spec_flag(b),
        )
    }

    /// The theme-file request of a plan: present exactly when the path has
    /// the theme-file extension, silently absent otherwise.
    pub open spec fn theme_ok(&self, c: Seq<Command>) -> bool {
        self.theme_path matches Some(p) ==> (spec_has_theme_extension(p@) ==> (c[self.light_len()
            + self.color_len()] matches Command::RunThemeFile { path } && path == p))
    }

    /// The boolean-equivalent registry value written for a flag.
    pub fn bool_to_data(input: bool) -> (r: u32)
        ensures
            r == (if input {
                1u32
            } else {
                0u32
            }),
    {
        if input {
            1
        } else {
            0
        }
    }
}

impl Connector for Windows {
    type Err = WindowsError;

    type Live = Option<String>;

    open spec fn blank(&self) -> bool {
        self.theme_path is None && self.enable_color_prevalence is None && self.light_mode is None
            && self.cursor_scheme is None
    }

    open spec fn wf(&self) -> bool {
        true
    }

    /// Constructing a personalization connector needs no discovery, so it
    /// always yields the blank connector.
    open spec fn construct_spec(r: Result<Windows, WindowsError>) -> bool {
        r matches Ok(c) && c.blank()
    }

    /// The store-access probe `verify` performs is a transport concern; the
    /// desired-state fields themselves have no precondition to check.
    open spec fn verify_spec(&self, r: Result<(), WindowsError>) -> bool {
        r is Ok
    }

    open spec fn live_wf(&self, live: &Option<String>) -> bool {
        true
    }

    open spec fn plan_spec(&self, live: &Option<String>, r: Result<
        Vec<Command>,
        WindowsError,
    >) -> bool {
        if self.needs_scheme_data() && live is None {
            r == Err::<Vec<Command>, WindowsError>(WindowsError::SchemeNotFound)
        } else {
            r matches Ok(c) && c@.len() == self.total_len() && self.light_ok(c@) && self.color_ok(
                c@,
            ) && self.theme_ok(c@) && (self.cursor_scheme matches Some(cs) ==> cursor_seg_ok(
                cs,
                *live,
                c@,
                self.cursor_off(),
            ))
        }
    }

    fn new() -> (r: Result<Self, WindowsError>) {
        Ok(
            Windows {
                theme_path: None,
                enable_color_prevalence: None,
                light_mode: None,
                cursor_scheme: None,
            },
        )
    }

    fn verify(&self) -> (r: Result<(), WindowsError>) {
        Ok(())
    }

    fn plan(&self, live: &Option<String>) -> (r: Result<Vec<Command>, WindowsError>) {
        let mut cmds: Vec<Command> = Vec::new();
        if let Some(b) = self.light_mode {
            cmds.push(
                Command::SetPersonalizeFlag {
                    name: "AppsUseLightTheme".to_owned(),
                    value: Windows::bool_to_data(b),
                },
            );
            cmds.push(
                Command::SetPersonalizeFlag {
                    name: "SystemUsesLightTheme".to_owned(),
                    value: Windows::bool_to_data(b),
                },
            );
        }
        if let Some(b) = self.enable_color_prevalence {
            cmds.push(
                Command::SetPersonalizeFlag {
                    name: "ColorPrevalence".to_owned(),
                    value: Windows::bool_to_data(b),
                },
            );
        }
        if let Some(p) = &self.theme_path {
            if has_theme_extension(p.as_str()) {
                cmds.push(Command::RunThemeFile { path: p.clone() });
            }
        }
        match &self.cursor_scheme {
            None => Ok(cmds),
            Some(cs) => {
                let source: u32;
                let name: String;
                let roles: Vec<String>;
                match cs {
                    CursorScheme::WindowsDefault => {
                        source = 0;
                        name = String::new();
                        roles = Vec::new();
                    },
                    CursorScheme::UserScheme(n) => {
                        match live {
                            Some(d) => {
                                source = 1;
                                name = n.clone();
                                roles = split_roles(d.as_str());
                            },
                            None => {
                                return Err(WindowsError::SchemeNotFound);
                            },
                        }
                    },
                    CursorScheme::SystemScheme(n) => {
                        match live {
                            Some(d) => {
                                source = 2;
                                name = n.clone();
                                roles = split_roles(d.as_str());
                            },
                            None => {
                                return Err(WindowsError::SchemeNotFound);
                            },
                        }
                    },
                }
                let ghost gcs = self.cursor_scheme.unwrap();
                let ghost groles = spec_roles(gcs, *live);
                proof {
                    assert(roles@.len() == groles.len());
                    assert(forall|k: int|
                        0 <= k < roles@.len() ==> (#[trigger] roles@[k])@ == groles[k]);
                }
                let ghost off = self.cursor_off();
                let ghost before_cursor = cmds@;
                cmds.push(Command::SetSchemeSource { value: source });
                cmds.push(Command::SetActiveSchemeName { name });
                proof {
                    assert(forall|j: int|
                        0 <= j < before_cursor.len() ==> #[trigger] cmds@[j] == before_cursor[j]);
                }
                let mut i: usize = 0;
                while i < CURSOR_ROLE_COUNT
                    invariant
                        i <= 15,
                        off == self.cursor_off(),
                        self.cursor_scheme is Some,
                        gcs == self.cursor_scheme.unwrap(),
                        groles == spec_roles(gcs, *live),
                        cmds@.len() == off + 2 + i,
                        self.light_ok(cmds@),
                        self.color_ok(cmds@),
                        self.theme_ok(cmds@),
                        cmds@[off] matches Command::SetSchemeSource { value } && value
                            == spec_scheme_source(gcs),
                        scheme_name_cmd(gcs, cmds@[off + 1]),
                        forall|j: int|
                            0 <= j < i ==> #[trigger] slot_cmd(cmds@[off + 2 + j], j, groles),
                        roles@.len() == groles.len(),
                        forall|k: int|
                            0 <= k < roles@.len() ==> (#[trigger] roles@[k])@ == groles[k],
                    decreases 15 - i,
                {
                    let role = cursor_role(i).to_owned();
                    let file = if i < roles.len() {
                        roles[i].clone()
                    } else {
                        String::new()
                    };
                    let ghost prev = cmds@;
                    cmds.push(Command::SetCursorSlot { role, file });
                    proof {
                        assert(forall|j: int| 0 <= j < prev.len() ==> #[trigger] cmds@[j] == prev[j]);
                        assert(slot_cmd(cmds@[off + 2 + i], i as int, groles));
                    }
                    i = i + 1;
                }
                let ghost prev = cmds@;
                cmds.push(Command::NotifyCursorsChanged);
                proof {
                    assert(forall|j: int| 0 <= j < prev.len() ==> #[trigger] cmds@[j] == prev[j]);
                }
                Ok(cmds)
            },
        }
    }
}

} // verus!
