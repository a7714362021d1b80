use univeme::command::Command;
use univeme::connectors::Connector;
use univeme::connectors::ConnectorConfig;
use univeme::connectors::ledfx::Ledfx;
use univeme::connectors::windows::CursorScheme;
use univeme::materialize::LiveInputs;
use univeme::materialize::materialize_all;
use univeme::materialize::materialize_ledfx;
use univeme::materialize::materialize_pprefox;
use univeme::materialize::materialize_windows;
use univeme::materialize::materialize_wpeng;
use univeme::materialize::merge_cursor_schemes;
use univeme::orchestrator::ApplyRun;
use univeme::orchestrator::Orchestrator;
use univeme::resolve::ResolveError;
use univeme::resolve::lookup;
use univeme::resolve::resolve;
use univeme::toml;
use univeme::tristate::TriState;

fn pairs(v: &[(&str, &str)]) -> Vec<(String, String)> {
    v.iter().map(|(a, b)| (a.to_string(), b.to_string())).collect()
}

fn strings(v: &[&str]) -> Vec<String> {
    v.iter().map(|s| s.to_string()).collect()
}

#[test]
fn resolve_present_name_returns_paired_id() {
    let mapping = pairs(&[("Sunset", "s1"), ("Rainy", "s2")]);
    assert_eq!(resolve(&mapping, &"Sunset".to_string()), Ok("s1".to_string()));
    assert_eq!(resolve(&mapping, &"Rainy".to_string()), Ok("s2".to_string()));
}

#[test]
fn resolve_absent_name_is_name_not_found() {
    let mapping = pairs(&[("Sunset", "s1")]);
    assert_eq!(resolve(&mapping, &"Dawn".to_string()), Err(ResolveError::NameNotFound));
    assert_eq!(resolve(&Vec::new(), &"Sunset".to_string()), Err(ResolveError::NameNotFound));
}

#[test]
fn resolve_is_case_sensitive_and_exact() {
    let mapping = pairs(&[("Sunset", "s1")]);
    assert_eq!(resolve(&mapping, &"sunset".to_string()), Err(ResolveError::NameNotFound));
    assert_eq!(resolve(&mapping, &"Sunset ".to_string()), Err(ResolveError::NameNotFound));
}

#[test]
fn resolve_duplicate_names_last_entry_wins() {
    let mapping = pairs(&[("Sunset", "s1"), ("Sunset", "s9")]);
    assert_eq!(lookup(&mapping, &"Sunset".to_string()), Some("s9".to_string()));
}

#[test]
fn lighting_scenario_sunset_resolves_and_activates() {
    // The backend lists scenes {"s1": "Sunset", "s2": "Rainy"}; the
    // configuration names "Sunset".
    let connector = Ledfx {
        endpoint: Some("http://localhost:8888".to_string()),
        scene_id: TriState::Unset,
    };
    let mapping = connector
        .get_available_scenes(Some(pairs(&[("s1", "Sunset"), ("s2", "Rainy")])))
        .unwrap();
    let entry = toml::Ledfx {
        comment: None,
        endpoint: Some("http://localhost:8888".to_string()),
        scene_name: Some("Sunset".to_string()),
    };
    let materialized = materialize_ledfx(&entry, &mapping).unwrap();
    assert_eq!(materialized.scene_id, TriState::Named("s1".to_string()));
    let cmds = materialized.plan(&None).unwrap();
    assert_eq!(cmds, vec![Command::ActivateScene { id: "s1".to_string() }]);
}

#[test]
fn wallpaper_scenario_display_two_reset_only() {
    // Display 2 is configured without a name (reset); display 0 is not
    // mentioned at all, so it is left alone.
    let blank = univeme::connectors::wpeng::Wpeng::new(
        Some("wpeng.cfg".to_string()),
        Some("wpeng.exe".to_string()),
    )
    .unwrap();
    let entries = vec![toml::Wpeng { comment: None, name: None, desktop_id: Some(2) }];
    let connector = materialize_wpeng(&entries, blank);
    assert_eq!(connector.wallpapers, vec![(2, None)]);
    let cmds = connector.plan(&pairs(&[("Ocean", "C:\\wp\\ocean")])).unwrap();
    assert_eq!(cmds, vec![Command::RemoveWallpaper { display: 2 }]);
}

#[test]
fn wallpaper_entries_default_display_and_last_entry_wins() {
    let blank = univeme::connectors::wpeng::Wpeng::new(
        Some("wpeng.cfg".to_string()),
        Some("wpeng.exe".to_string()),
    )
    .unwrap();
    let entries = vec![
        toml::Wpeng { comment: None, name: Some("Ocean".to_string()), desktop_id: None },
        toml::Wpeng { comment: None, name: Some("Forest".to_string()), desktop_id: Some(0) },
    ];
    let connector = materialize_wpeng(&entries, blank);
    assert_eq!(connector.wallpapers, vec![(0, Some("Forest".to_string()))]);
}

#[test]
fn pprefox_materialization_resolves_theme() {
    let entry = toml::Pprefox {
        comment: None,
        endpoint: Some("http://localhost:9000".to_string()),
        theme_name: "Dark".to_string(),
    };
    let themes = pairs(&[("Dark", "t-1"), ("Light", "t-2")]);
    let c = materialize_pprefox(&entry, &themes).unwrap();
    assert_eq!(c.endpoint, Some("http://localhost:9000".to_string()));
    assert_eq!(c.theme_id, TriState::Named("t-1".to_string()));
    let missing = toml::Pprefox { comment: None, endpoint: None, theme_name: "Sepia".to_string() };
    assert_eq!(materialize_pprefox(&missing, &themes), Err(ResolveError::NameNotFound));
}

#[test]
fn cursor_scheme_merge_keeps_provenance_and_user_wins() {
    let table = merge_cursor_schemes(&strings(&["Aero", "Shared"]), &strings(&["Shared", "Mine"]));
    assert_eq!(table.len(), 4);
    let entry = toml::Windows { comment: None, cursor_scheme: Some("Shared".to_string()) };
    let c = materialize_windows(&entry, &table).unwrap();
    assert_eq!(c.cursor_scheme, Some(CursorScheme::UserScheme("Shared".to_string())));
    let entry = toml::Windows { comment: None, cursor_scheme: Some("Aero".to_string()) };
    let c = materialize_windows(&entry, &table).unwrap();
    assert_eq!(c.cursor_scheme, Some(CursorScheme::SystemScheme("Aero".to_string())));
    let entry = toml::Windows { comment: None, cursor_scheme: Some("Gone".to_string()) };
    assert_eq!(materialize_windows(&entry, &table), Err(ResolveError::NameNotFound));
    let entry = toml::Windows { comment: None, cursor_scheme: None };
    let c = materialize_windows(&entry, &table).unwrap();
    assert_eq!(c.cursor_scheme, None);
}

fn empty_config() -> toml::Config {
    toml::Config {
        name: None,
        author: None,
        pprefox: None,
        windows: None,
        wpeng: None,
        ledfx: None,
    }
}

fn empty_live() -> LiveInputs {
    LiveInputs {
        pprefox_themes: Vec::new(),
        system_schemes: Vec::new(),
        user_schemes: Vec::new(),
        wpeng: None,
        ledfx_scenes: Vec::new(),
    }
}

#[test]
fn whole_batch_validation_precedes_any_side_effect() {
    // Two connectors are configured; the theme name does not resolve, so
    // materialization of the whole run fails and no connector list — and
    // with it no apply — ever comes into being.
    let config = toml::Config {
        pprefox: Some(vec![toml::Pprefox {
            comment: None,
            endpoint: Some("http://localhost:9000".to_string()),
            theme_name: "Nonexistent".to_string(),
        }]),
        ledfx: Some(vec![toml::Ledfx {
            comment: None,
            endpoint: Some("http://localhost:8888".to_string()),
            scene_name: Some("Sunset".to_string()),
        }]),
        ..empty_config()
    };
    let live = LiveInputs {
        pprefox_themes: vec![pairs(&[("Dark", "t-1")])],
        ledfx_scenes: vec![pairs(&[("Sunset", "s1")])],
        ..empty_live()
    };
    let r = materialize_all(&config, live);
    assert_eq!(r, Err(ResolveError::NameNotFound));
}

#[test]
fn materialize_all_orders_connectors_and_resolves_everything() {
    let config = toml::Config {
        pprefox: Some(vec![toml::Pprefox {
            comment: None,
            endpoint: Some("http://localhost:9000".to_string()),
            theme_name: "Dark".to_string(),
        }]),
        windows: Some(vec![toml::Windows { comment: None, cursor_scheme: None }]),
        wpeng: Some(vec![toml::Wpeng {
            comment: None,
            name: Some("Ocean".to_string()),
            desktop_id: Some(1),
        }]),
        ledfx: Some(vec![toml::Ledfx {
            comment: None,
            endpoint: Some("http://localhost:8888".to_string()),
            scene_name: None,
        }]),
        ..empty_config()
    };
    let live = LiveInputs {
        pprefox_themes: vec![pairs(&[("Dark", "t-1")])],
        system_schemes: strings(&["Aero"]),
        user_schemes: Vec::new(),
        wpeng: Some(
            univeme::connectors::wpeng::Wpeng::new(
                Some("wpeng.cfg".to_string()),
                Some("wpeng.exe".to_string()),
            )
            .unwrap(),
        ),
        ledfx_scenes: vec![pairs(&[("Sunset", "s1")])],
    };
    let list = materialize_all(&config, live).unwrap();
    assert_eq!(list.len(), 4);
    assert!(
        matches!(&list[0], ConnectorConfig::Pprefox(c) if c.theme_id == TriState::Named("t-1".to_string()))
    );
    assert!(matches!(&list[1], ConnectorConfig::Windows(c) if c.cursor_scheme == None));
    assert!(
        matches!(&list[2], ConnectorConfig::Wpeng(c) if c.wallpapers == vec![(1, Some("Ocean".to_string()))])
    );
    assert!(matches!(&list[3], ConnectorConfig::Ledfx(c) if c.scene_id == TriState::Reset));
}

#[test]
fn materialize_all_resolves_cursor_scheme_through_merged_table() {
    let config = toml::Config {
        windows: Some(vec![toml::Windows {
            comment: None,
            cursor_scheme: Some("Mine".to_string()),
        }]),
        ..empty_config()
    };
    let live = LiveInputs {
        system_schemes: strings(&["Aero"]),
        user_schemes: strings(&["Mine"]),
        ..empty_live()
    };
    let list = materialize_all(&config, live).unwrap();
    assert_eq!(list.len(), 1);
    assert!(
        matches!(&list[0], ConnectorConfig::Windows(c) if c.cursor_scheme == Some(CursorScheme::UserScheme("Mine".to_string())))
    );
}

#[test]
fn materialize_all_fails_on_unknown_scene_name() {
    let config = toml::Config {
        ledfx: Some(vec![toml::Ledfx {
            comment: None,
            endpoint: Some("http://localhost:8888".to_string()),
            scene_name: Some("Dawn".to_string()),
        }]),
        ..empty_config()
    };
    let live = LiveInputs {
        ledfx_scenes: vec![pairs(&[("Sunset", "s1")])],
        ..empty_live()
    };
    assert_eq!(materialize_all(&config, live), Err(ResolveError::NameNotFound));
}

#[test]
fn apply_run_walks_commands_in_order() {
    let cmds = vec![
        Command::DeactivateScene { id: "s1".to_string() },
        Command::DeactivateScene { id: "s2".to_string() },
    ];
    let mut run = ApplyRun::new(cmds.clone());
    assert_eq!(run.next_command(), Some(&cmds[0]));
    run.record(true);
    assert_eq!(run.next_command(), Some(&cmds[1]));
    run.record(true);
    assert_eq!(run.next_command(), None);
}

#[test]
fn apply_run_aborts_on_first_rejected_request() {
    let cmds = vec![
        Command::DeactivateScene { id: "s1".to_string() },
        Command::DeactivateScene { id: "s2".to_string() },
        Command::DeactivateScene { id: "s3".to_string() },
    ];
    let mut run = ApplyRun::new(cmds.clone());
    assert_eq!(run.next_command(), Some(&cmds[0]));
    run.record(false);
    assert_eq!(run.next_command(), None);
}

#[test]
fn apply_run_notification_failure_is_not_fatal() {
    let cmds = vec![
        Command::NotifyCursorsChanged,
        Command::SetSchemeSource { value: 0 },
    ];
    let mut run = ApplyRun::new(cmds.clone());
    assert_eq!(run.next_command(), Some(&cmds[0]));
    run.record(false);
    assert_eq!(run.next_command(), Some(&cmds[1]));
}

#[test]
fn orchestrator_stops_after_first_failed_connector() {
    let first = ConnectorConfig::Ledfx(Ledfx {
        endpoint: Some("http://localhost:8888".to_string()),
        scene_id: TriState::Reset,
    });
    let second = ConnectorConfig::Ledfx(Ledfx {
        endpoint: Some("http://localhost:8889".to_string()),
        scene_id: TriState::Unset,
    });
    let mut orch = Orchestrator::new(vec![first.clone(), second.clone()]);
    assert_eq!(orch.current(), Some(&first));
    orch.advance(false);
    assert_eq!(orch.current(), None);
    let mut orch = Orchestrator::new(vec![first.clone(), second.clone()]);
    orch.advance(true);
    assert_eq!(orch.current(), Some(&second));
    orch.advance(true);
    assert_eq!(orch.current(), None);
}
