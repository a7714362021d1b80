//! The configuration materializer: turning parsed declarative entries into
//! concrete, fully resolved connector instances.
//!
//! Every human-authored name is resolved here, eagerly, against the live
//! mapping fetched for its entry — never later during an apply — so that the
//! whole batch of desired changes is validated for resolvability before any
//! side effect occurs for any connector.  The one exception is live state
//! whose meaning depends on the backend's current contents (the lighting
//! reset listing, the wallpaper catalogue, a scheme's stored role list),
//! which planning takes fresh.
use vstd::prelude::*;

use crate::connectors::ConnectorConfig;
use crate::connectors::ledfx::Ledfx;
use crate::connectors::pprefox::Pprefox;
use crate::connectors::windows::CursorScheme;
use crate::connectors::windows::Windows;
use crate::connectors::wpeng::Wpeng;
use crate::connectors::wpeng::wp_insert;
use crate::resolve::ResolveError;
use crate::resolve::resolve;
use crate::resolve::resolved;
use crate::toml;
use crate::tristate::TriState;

verus! {

/// The outcome owed for one browser-theme entry: the connector carrying the
/// entry's address and the resolved theme, or `NameNotFound` exactly when
/// the live theme listing does not carry the configured name.
pub open spec fn pprefox_mat(
    entry: toml::Pprefox,
    themes: Seq<(String, String)>,
    r: Result<Pprefox, ResolveError>,
) -> bool {
    match resolved(themes, entry.theme_name@) {
        Some(id) => r matches Ok(c) && c.endpoint == entry.endpoint && c.theme_id
            == TriState::Named(id),
        None => r == Err::<Pprefox, ResolveError>(ResolveError::NameNotFound),
    }
}

/// Materialize one browser-theme entry against its freshly fetched theme
/// listing.
pub fn materialize_pprefox(entry: &toml::Pprefox, themes: &Vec<(String, String)>) -> (r: Result<
    Pprefox,
    ResolveError,
>)
    ensures
        pprefox_mat(*entry, themes@, r),
{
    let id = resolve(themes, &entry.theme_name)?;
    let endpoint = match &entry.endpoint {
        Some(e) => Some(e.clone()),
        None => None,
    };
    Ok(Pprefox { endpoint, theme_id: TriState::Named(id) })
}

/// The scheme paired with the last occurrence of `name` in the merged
/// cursor-scheme table, or `None` when no entry carries that name.
pub open spec fn resolved_scheme(
    table: Seq<(String, CursorScheme)>,
    name: Seq<char>,
) -> Option<CursorScheme>
    decreases table.len(),
{
    if table.len() == 0 {
        None
    } else if table.last().0@ == name {
        Some(table.last().1)
    } else {
        resolved_scheme(table.drop_last(), name)
    }
}

/// Look a scheme name up in the merged table, last occurrence winning.
fn lookup_scheme(table: &Vec<(String, CursorScheme)>, name: &String) -> (r: Option<CursorScheme>)
    ensures
        r == resolved_scheme(table@, name@),
{
    let mut i: usize = table.len();
    proof {
        assert(table@.subrange(0, table@.len() as int) =~= table@);
    }
    while i > 0
        invariant
            i <= table.len(),
            resolved_scheme(table@, name@) == resolved_scheme(
                table@.subrange(0, i as int),
                name@,
            ),
        decreases i,
    {
        proof {
            assert(table@.subrange(0, i as int).last() == table@[i - 1]);
            assert(table@.subrange(0, i as int).drop_last() =~= table@.subrange(0, i as int - 1));
        }
        if table[i - 1].0 == *name {
            return Some(table[i - 1].1.clone());
        }
        i = i - 1;
    }
    proof {
        assert(table@.subrange(0, 0) =~= Seq::<(String, CursorScheme)>::empty());
    }
    None
}

/// The merged two-namespace cursor-scheme table: every system-store scheme,
/// then every user-store scheme, each tagged with its provenance.  Lookups
/// take the last occurrence, so on a name carried by both stores the user
/// store wins.
pub open spec fn merged_table(system: Seq<String>, user: Seq<String>) -> Seq<(String, CursorScheme)> {
    Seq::new(
        system.len() + user.len(),
        |i: int|
            if i < system.len() {
                (system[i], CursorScheme::SystemScheme(system[i]))
            } else {
                (user[i - system.len()], CursorScheme::UserScheme(user[i - system.len()]))
            },
    )
}

/// Build the merged cursor-scheme table from the two independent store
/// enumerations.
pub fn merge_cursor_schemes(system: &Vec<String>, user: &Vec<String>) -> (r: Vec<
    (String, CursorScheme),
>)
    ensures
        r@ == merged_table(system@, user@),
{
    let mut table: Vec<(String, CursorScheme)> = Vec::new();
    let mut i: usize = 0;
    while i < system.len()
        invariant
            i <= system@.len(),
            table@.len() == i,
            forall|j: int|
                0 <= j < i ==> #[trigger] table@[j] == (
                    system@[j],
                    CursorScheme::SystemScheme(system@[j]),
                ),
        decreases system@.len() - i,
    {
        table.push((system[i].clone(), CursorScheme::SystemScheme(system[i].clone())));
        i = i + 1;
    }
    let mut k: usize = 0;
    while k < user.len()
        invariant
            k <= user@.len(),
            table@.len() == system@.len() + k,
            forall|j: int|
                0 <= j < system@.len() ==> #[trigger] table@[j] == (
                    system@[j],
                    CursorScheme::SystemScheme(system@[j]),
                ),
            forall|j: int|
                0 <= j < k ==> #[trigger] table@[system@.len() + j] == (
                    user@[j],
                    CursorScheme::UserScheme(user@[j]),
                ),
        decreases user@.len() - k,
    {
        table.push((user[k].clone(), CursorScheme::UserScheme(user[k].clone())));
        k = k + 1;
    }
    proof {
        assert forall|idx: int| system@.len() <= idx < table@.len() implies table@[idx] == (
            user@[idx - system@.len()],
            CursorScheme::UserScheme(user@[idx - system@.len()]),
        ) by {
            let j = idx - system@.len();
            assert(table@[system@.len() + j] == (user@[j], CursorScheme::UserScheme(user@[j])));
        }
        assert(table@ =~= merged_table(system@, user@));
    }
    table
}

/// The outcome owed for one personalization entry against the merged
/// cursor-scheme table: an entry without a scheme name yields the connector
/// with every field untouched; a named entry resolves to the scheme and its
/// provenance, or fails with `NameNotFound`.
pub open spec fn windows_mat(
    entry: toml::Windows,
    table: Seq<(String, CursorScheme)>,
    r: Result<Windows, ResolveError>,
) -> bool {
    match entry.cursor_scheme {
        None => r matches Ok(c) && c.theme_path is None && c.enable_color_prevalence is None
            && c.light_mode is None && c.cursor_scheme is None,
        Some(name) => match resolved_scheme(table, name@) {
            Some(cs) => r matches Ok(c) && c.theme_path is None && c.enable_color_prevalence
                is None && c.light_mode is None && c.cursor_scheme == Some(cs),
            None => r == Err::<Windows, ResolveError>(ResolveError::NameNotFound),
        },
    }
}

/// Materialize one personalization entry against the merged table.
pub fn materialize_windows(entry: &toml::Windows, table: &Vec<(String, CursorScheme)>) -> (r:
    Result<Windows, ResolveError>)
    ensures
        windows_mat(*entry, table@, r),
{
    let cursor_scheme = match &entry.cursor_scheme {
        None => None,
        Some(name) => match lookup_scheme(table, name) {
            Some(cs) => Some(cs),
            None => {
                return Err(ResolveError::NameNotFound);
            },
        },
    };
    Ok(
        Windows {
            theme_path: None,
            enable_color_prevalence: None,
            light_mode: None,
            cursor_scheme,
        },
    )
}

/// The display index a wallpaper entry addresses, the first display when
/// none is given.
pub open spec fn wpeng_entry_key(e: toml::Wpeng) -> u8 {
    match e.desktop_id {
        Some(d) => d,
        None => 0u8,
    }
}

/// The wallpaper mapping after folding a run of configuration entries into
/// it, in order, a later entry for the same display winning.
pub open spec fn wpeng_entries_applied(
    m: Seq<(u8, Option<String>)>,
    entries: Seq<toml::Wpeng>,
) -> Seq<(u8, Option<String>)>
    decreases entries.len(),
{
    if entries.len() == 0 {
        m
    } else {
        wpeng_entries_applied(
            wp_insert(m, wpeng_entry_key(entries.first()), entries.first().name),
            entries.drop_first(),
        )
    }
}

/// Fold the wallpaper entries into a freshly constructed connector's
/// mapping.  Entries without a name become explicit "clear this display"
/// requests; displays no entry addresses stay absent and are left alone.
pub fn materialize_wpeng(entries: &Vec<toml::Wpeng>, connector: Wpeng) -> (r: Wpeng)
    requires
        connector.wf(),
    ensures
        r.wf(),
        r.exe == connector.exe,
        r.wallpapers@ == wpeng_entries_applied(connector.wallpapers@, entries@),
{
    let ghost orig_m = connector.wallpapers@;
    let ghost orig_exe = connector.exe;
    let mut c = connector;
    let mut i: usize = 0;
    proof {
        assert(entries@.subrange(0, entries@.len() as int) =~= entries@);
    }
    while i < entries.len()
        invariant
            i <= entries@.len(),
            c.wf(),
            c.exe == orig_exe,
            wpeng_entries_applied(orig_m, entries@) == wpeng_entries_applied(
                c.wallpapers@,
                entries@.subrange(i as int, entries@.len() as int),
            ),
        decreases entries@.len() - i,
    {
        proof {
            let rest = entries@.subrange(i as int, entries@.len() as int);
            assert(rest.first() == entries@[i as int]);
            assert(rest.drop_first() =~= entries@.subrange(i as int + 1, entries@.len() as int));
        }
        let key = match entries[i].desktop_id {
            Some(d) => d,
            None => 0,
        };
        let value = match &entries[i].name {
            Some(n) => Some(n.clone()),
            None => None,
        };
        c.set_wallpaper(key, value);
        i = i + 1;
    }
    proof {
        assert(entries@.subrange(entries@.len() as int, entries@.len() as int) =~= Seq::<
            toml::Wpeng,
        >::empty());
    }
    c
}

/// The outcome owed for one lighting entry: an entry without a scene name
/// asks for a reset; a named entry resolves against the entry's freshly
/// fetched scene listing or fails with `NameNotFound`.
pub open spec fn ledfx_mat(
    entry: toml::Ledfx,
    scenes: Seq<(String, String)>,
    r: Result<Ledfx, ResolveError>,
) -> bool {
    match entry.scene_name {
        None => r matches Ok(c) && c.endpoint == entry.endpoint && c.scene_id is Reset,
        Some(n) => match resolved(scenes, n@) {
            Some(id) => r matches Ok(c) && c.endpoint == entry.endpoint && c.scene_id
                == TriState::Named(id),
            None => r == Err::<Ledfx, ResolveError>(ResolveError::NameNotFound),
        },
    }
}

/// Materialize one lighting entry against its freshly fetched scene listing.
pub fn materialize_ledfx(entry: &toml::Ledfx, scenes: &Vec<(String, String)>) -> (r: Result<
    Ledfx,
    ResolveError,
>)
    ensures
        ledfx_mat(*entry, scenes@, r),
{
    let endpoint = match &entry.endpoint {
        Some(e) => Some(e.clone()),
        None => None,
    };
    match &entry.scene_name {
        None => Ok(Ledfx { endpoint, scene_id: TriState::Reset }),
        Some(name) => {
            let id = resolve(scenes, name)?;
            Ok(Ledfx { endpoint, scene_id: TriState::Named(id) })
        },
    }
}

/// Everything the materializer needs from the live backends, fetched by the
/// caller: one theme listing per browser-theme entry, the two cursor-scheme
/// store enumerations, the freshly constructed wallpaper connector when the
/// configuration has a wallpaper section, and one scene listing per lighting
/// entry.
pub struct LiveInputs {
    pub pprefox_themes: Vec<Vec<(String, String)>>,
    pub system_schemes: Vec<String>,
    pub user_schemes: Vec<String>,
    pub wpeng: Option<Wpeng>,
    pub ledfx_scenes: Vec<Vec<(String, String)>>,
}

/// How many browser-theme entries the configuration holds.
pub open spec fn pprefox_count(config: toml::Config) -> int {
    match config.pprefox {
        Some(v) => v@.len() as int,
        None => 0,
    }
}

/// How many personalization entries the configuration holds.
pub open spec fn windows_count(config: toml::Config) -> int {
    match config.windows {
        Some(v) => v@.len() as int,
        None => 0,
    }
}

/// Whether the configuration materializes a wallpaper connector: one for
/// the whole section when it is present, none otherwise.
pub open spec fn wpeng_count(config: toml::Config) -> int {
    if config.wpeng is Some {
        1
    } else {
        0
    }
}

/// How many lighting entries the configuration holds.
pub open spec fn ledfx_count(config: toml::Config) -> int {
    match config.ledfx {
        Some(v) => v@.len() as int,
        None => 0,
    }
}

/// Whether some configured name fails to resolve against its live mapping.
pub open spec fn any_unresolved(config: toml::Config, live: LiveInputs) -> bool {
    (exists|i: int|
        0 <= i < pprefox_count(config) && resolved(
            (#[trigger] live.pprefox_themes@[i])@,
            config.pprefox.unwrap()@[i].theme_name@,
        ) is None) || (exists|i: int|
        0 <= i < windows_count(config) && ((#[trigger] config.windows.unwrap()@[i]).cursor_scheme
            matches Some(n) && resolved_scheme(
            merged_table(live.system_schemes@, live.user_schemes@),
            n@,
        ) is None)) || (exists|i: int|
        0 <= i < ledfx_count(config) && ((#[trigger] config.ledfx.unwrap()@[i]).scene_name
            matches Some(n) && resolved(live.ledfx_scenes@[i]@, n@) is None))
}

fn pprefox_section(entries: &Vec<toml::Pprefox>, themes: &Vec<Vec<(String, String)>>) -> (r: Result<
    Vec<ConnectorConfig>,
    ResolveError,
>)
    requires
        themes@.len() == entries@.len(),
    ensures
        r matches Ok(list) ==> list@.len() == entries@.len() && (forall|j: int|
            0 <= j < entries@.len() ==> ((#[trigger] list@[j]) matches ConnectorConfig::Pprefox(c)
                && pprefox_mat(entries@[j], themes@[j]@, Ok(c)))) && (forall|j: int|
            0 <= j < entries@.len() ==> resolved(
                (#[trigger] themes@[j])@,
                entries@[j].theme_name@,
            ) is Some),
        r is Err ==> r == Err::<Vec<ConnectorConfig>, ResolveError>(ResolveError::NameNotFound) && (
        exists|j: int|
            0 <= j < entries@.len() && resolved(
                (#[trigger] themes@[j])@,
                entries@[j].theme_name@,
            ) is None),
{
    let mut list: Vec<ConnectorConfig> = Vec::new();
    let mut i: usize = 0;
    while i < entries.len()
        invariant
            themes@.len() == entries@.len(),
            i <= entries@.len(),
            list@.len() == i,
            forall|j: int|
                0 <= j < i ==> ((#[trigger] list@[j]) matches ConnectorConfig::Pprefox(c)
                    && pprefox_mat(entries@[j], themes@[j]@, Ok(c))),
            forall|j: int|
                0 <= j < i ==> resolved((#[trigger] themes@[j])@, entries@[j].theme_name@) is Some,
        decreases entries@.len() - i,
    {
        match materialize_pprefox(&entries[i], &themes[i]) {
            Ok(c) => {
                let ghost prev = list@;
                list.push(ConnectorConfig::Pprefox(c));
                proof {
                    assert(forall|j: int| 0 <= j < prev.len() ==> #[trigger] list@[j] == prev[j]);
                }
            },
            Err(e) => {
                return Err(e);
            },
        }
        i = i + 1;
    }
    Ok(list)
}

fn windows_section(entries: &Vec<toml::Windows>, table: &Vec<(String, CursorScheme)>) -> (r: Result<
    Vec<ConnectorConfig>,
    ResolveError,
>)
    ensures
        r matches Ok(list) ==> list@.len() == entries@.len() && (forall|j: int|
            0 <= j < entries@.len() ==> ((#[trigger] list@[j]) matches ConnectorConfig::Windows(c)
                && windows_mat(entries@[j], table@, Ok(c)))) && (forall|j: int|
            0 <= j < entries@.len() ==> ((#[trigger] entries@[j]).cursor_scheme matches Some(n)
                ==> resolved_scheme(table@, n@) is Some)),
        r is Err ==> r == Err::<Vec<ConnectorConfig>, ResolveError>(ResolveError::NameNotFound) && (
        exists|j: int|
            0 <= j < entries@.len() && ((#[trigger] entries@[j]).cursor_scheme matches Some(n)
                && resolved_scheme(table@, n@) is None)),
{
    let mut list: Vec<ConnectorConfig> = Vec::new();
    let mut i: usize = 0;
    while i < entries.len()
        invariant
            i <= entries@.len(),
            list@.len() == i,
            forall|j: int|
                0 <= j < i ==> ((#[trigger] list@[j]) matches ConnectorConfig::Windows(c)
                    && windows_mat(entries@[j], table@, Ok(c))),
            forall|j: int|
                0 <= j < i ==> ((#[trigger] entries@[j]).cursor_scheme matches Some(n)
                    ==> resolved_scheme(table@, n@) is Some),
        decreases entries@.len() - i,
    {
        match materialize_windows(&entries[i], table) {
            Ok(c) => {
                let ghost prev = list@;
                list.push(ConnectorConfig::Windows(c));
                proof {
                    assert(forall|j: int| 0 <= j < prev.len() ==> #[trigger] list@[j] == prev[j]);
                }
            },
            Err(e) => {
                return Err(e);
            },
        }
        i = i + 1;
    }
    Ok(list)
}

fn ledfx_section(entries: &Vec<toml::Ledfx>, scenes: &Vec<Vec<(String, String)>>) -> (r: Result<
    Vec<ConnectorConfig>,
    ResolveError,
>)
    requires
        scenes@.len() == entries@.len(),
    ensures
        r matches Ok(list) ==> list@.len() == entries@.len() && (forall|j: int|
            0 <= j < entries@.len() ==> ((#[trigger] list@[j]) matches ConnectorConfig::Ledfx(c)
                && ledfx_mat(entries@[j], scenes@[j]@, Ok(c)))) && (forall|j: int|
            0 <= j < entries@.len() ==> ((#[trigger] entries@[j]).scene_name matches Some(n)
                ==> resolved(scenes@[j]@, n@) is Some)),
        r is Err ==> r == Err::<Vec<ConnectorConfig>, ResolveError>(ResolveError::NameNotFound) && (
        exists|j: int|
            0 <= j < entries@.len() && ((#[trigger] entries@[j]).scene_name matches Some(n)
                && resolved(scenes@[j]@, n@) is None)),
{
    let mut list: Vec<ConnectorConfig> = Vec::new();
    let mut i: usize = 0;
    while i < entries.len()
        invariant
            scenes@.len() == entries@.len(),
            i <= entries@.len(),
            list@.len() == i,
            forall|j: int|
                0 <= j < i ==> ((#[trigger] list@[j]) matches ConnectorConfig::Ledfx(c)
                    && ledfx_mat(entries@[j], scenes@[j]@, Ok(c))),
            forall|j: int|
                0 <= j < i ==> ((#[trigger] entries@[j]).scene_name matches Some(n) ==> resolved(
                    scenes@[j]@,
                    n@,
                ) is Some),
        decreases entries@.len() - i,
    {
        match materialize_ledfx(&entries[i], &scenes[i]) {
            Ok(c) => {
                let ghost prev = list@;
                list.push(ConnectorConfig::Ledfx(c));
                proof {
                    assert(forall|j: int| 0 <= j < prev.len() ==> #[trigger] list@[j] == prev[j]);
                }
            },
            Err(e) => {
                return Err(e);
            },
        }
        i = i + 1;
    }
    Ok(list)
}

/// Materialize the whole configuration into the ordered connector list the
/// orchestrator will drive: browser-theme entries, then personalization
/// entries, then the wallpaper connector, then lighting entries.
///
/// Every configured name is resolved here; the run materializes either all
/// of its connectors or none.  The result is an error exactly when some
/// name is absent from its live mapping, and then no connector — and so no
/// backend mutation — can follow from this configuration.
pub fn materialize_all(config: &toml::Config, live: LiveInputs) -> (r: Result<
    Vec<ConnectorConfig>,
    ResolveError,
>)
    requires
        config.pprefox matches Some(v) ==> live.pprefox_themes@.len() == v@.len(),
        config.ledfx matches Some(v) ==> live.ledfx_scenes@.len() == v@.len(),
        config.wpeng is Some ==> (live.wpeng matches Some(w) && w.wf() && w.wallpapers@.len()
            == 0),
    ensures
        r is Err <==> any_unresolved(*config, live),
        r is Err ==> r == Err::<Vec<ConnectorConfig>, ResolveError>(ResolveError::NameNotFound),
        r matches Ok(list) ==> list@.len() == pprefox_count(*config) + windows_count(*config)
            + wpeng_count(*config) + ledfx_count(*config),
        r matches Ok(list) ==> (forall|i: int|
            0 <= i < pprefox_count(*config) ==> ((#[trigger] list@[i])
                matches ConnectorConfig::Pprefox(c) && pprefox_mat(
                config.pprefox.unwrap()@[i],
                live.pprefox_themes@[i]@,
                Ok(c),
            ))),
        r matches Ok(list) ==> (forall|i: int|
            0 <= i < windows_count(*config) ==> ((#[trigger] list@[pprefox_count(*config) + i])
                matches ConnectorConfig::Windows(c) && windows_mat(
                config.windows.unwrap()@[i],
                merged_table(live.system_schemes@, live.user_schemes@),
                Ok(c),
            ))),
        r matches Ok(list) ==> (config.wpeng matches Some(entries) ==> (list@[pprefox_count(
            *config,
        ) + windows_count(*config)] matches ConnectorConfig::Wpeng(c) && c.wf() && c.exe
            == live.wpeng.unwrap().exe && c.wallpapers@ == wpeng_entries_applied(
            Seq::empty(),
            entries@,
        ))),
        r matches Ok(list) ==> (forall|i: int|
            0 <= i < ledfx_count(*config) ==> ((#[trigger] list@[pprefox_count(*config)
                + windows_count(*config) + wpeng_count(*config) + i])
                matches ConnectorConfig::Ledfx(c) && ledfx_mat(
                config.ledfx.unwrap()@[i],
                live.ledfx_scenes@[i]@,
                Ok(c),
            ))),
{
    let ghost glive = live;
    let LiveInputs { pprefox_themes, system_schemes, user_schemes, wpeng, ledfx_scenes } = live;
    let mut list: Vec<ConnectorConfig> = Vec::new();
    if let Some(entries) = &config.pprefox {
        match pprefox_section(entries, &pprefox_themes) {
            Ok(mut sec) => {
                list.append(&mut sec);
            },
            Err(e) => {
                return Err(e);
            },
        }
    }
    let ghost after_pp = list@;
    if let Some(entries) = &config.windows {
        let table = merge_cursor_schemes(&system_schemes, &user_schemes);
        match windows_section(entries, &table) {
            Ok(mut sec) => {
                list.append(&mut sec);
            },
            Err(e) => {
                return Err(e);
            },
        }
    }
    let ghost after_win = list@;
    if let Some(entries) = &config.wpeng {
        match wpeng {
            Some(w) => {
                let c = materialize_wpeng(entries, w);
                list.push(ConnectorConfig::Wpeng(c));
            },
            None => {
                proof {
                    assert(false);
                }
            },
        }
    }
    let ghost after_wp = list@;
    if let Some(entries) = &config.ledfx {
        match ledfx_section(entries, &ledfx_scenes) {
            Ok(mut sec) => {
                list.append(&mut sec);
            },
            Err(e) => {
                return Err(e);
            },
        }
    }
    Ok(list)
}

} // verus!

