use univeme::command::Command;
use univeme::connectors::Connector;
use univeme::connectors::ledfx::Ledfx;
use univeme::connectors::ledfx::LedfxError;
use univeme::connectors::pprefox::Pprefox;
use univeme::connectors::pprefox::PprefoxError;
use univeme::connectors::windows::CursorScheme;
use univeme::connectors::windows::Windows;
use univeme::connectors::windows::WindowsError;
use univeme::connectors::windows::cursor_role;
use univeme::connectors::windows::has_theme_extension;
use univeme::connectors::windows::split_roles;
use univeme::connectors::wpeng::Wpeng;
use univeme::connectors::wpeng::WpengError;
use univeme::tristate::TriState;

fn pairs(v: &[(&str, &str)]) -> Vec<(String, String)> {
    v.iter().map(|(a, b)| (a.to_string(), b.to_string())).collect()
}

#[test]
fn pprefox_new_is_blank() {
    let c = Pprefox::new().unwrap();
    assert_eq!(c.endpoint, None);
    assert_eq!(c.theme_id, TriState::Unset);
}

#[test]
fn pprefox_verify_requires_endpoint() {
    let c = Pprefox { endpoint: None, theme_id: TriState::Unset };
    assert_eq!(c.verify(), Err(PprefoxError::MissingEndpoint));
    let c = Pprefox { endpoint: Some("http://localhost:9000".to_string()), theme_id: TriState::Unset };
    assert_eq!(c.verify(), Ok(()));
}

#[test]
fn pprefox_unset_plans_nothing() {
    let c = Pprefox { endpoint: Some("http://localhost:9000".to_string()), theme_id: TriState::Unset };
    assert_eq!(c.plan(&()).unwrap(), Vec::<Command>::new());
}

#[test]
fn pprefox_named_plans_one_set_theme() {
    let c = Pprefox {
        endpoint: Some("http://localhost:9000".to_string()),
        theme_id: TriState::Named("t-42".to_string()),
    };
    let cmds = c.plan(&()).unwrap();
    assert_eq!(cmds, vec![Command::SetTheme { id: "t-42".to_string() }]);
}

#[test]
fn pprefox_named_without_endpoint_fails() {
    let c = Pprefox { endpoint: None, theme_id: TriState::Named("t-42".to_string()) };
    assert_eq!(c.plan(&()), Err(PprefoxError::MissingEndpoint));
}

#[test]
fn pprefox_theme_listing_passes_through() {
    let c = Pprefox { endpoint: Some("http://localhost:9000".to_string()), theme_id: TriState::Unset };
    let listing = pairs(&[("Dark", "t-1"), ("Light", "t-2")]);
    assert_eq!(c.get_available_themes(Some(listing.clone())).unwrap(), listing);
}

#[test]
fn pprefox_undecodable_listing_is_extension_failure() {
    let c = Pprefox { endpoint: Some("http://localhost:9000".to_string()), theme_id: TriState::Unset };
    assert_eq!(c.get_available_themes(None), Err(PprefoxError::ExtensionFailure));
    let c = Pprefox { endpoint: None, theme_id: TriState::Unset };
    assert_eq!(c.get_available_themes(Some(vec![])), Err(PprefoxError::MissingEndpoint));
}

#[test]
fn ledfx_new_is_blank() {
    let c = Ledfx::new().unwrap();
    assert_eq!(c.endpoint, None);
    assert_eq!(c.scene_id, TriState::Unset);
}

#[test]
fn ledfx_verify_requires_endpoint() {
    let c = Ledfx { endpoint: None, scene_id: TriState::Reset };
    assert_eq!(c.verify(), Err(LedfxError::MissingEndpoint));
}

#[test]
fn ledfx_unset_plans_nothing_and_fetches_nothing() {
    let c = Ledfx { endpoint: Some("http://localhost:8888".to_string()), scene_id: TriState::Unset };
    assert!(!c.needs_live_scenes());
    assert_eq!(c.plan(&None).unwrap(), Vec::<Command>::new());
}

#[test]
fn ledfx_named_plans_one_activate() {
    let c = Ledfx {
        endpoint: Some("http://localhost:8888".to_string()),
        scene_id: TriState::Named("s1".to_string()),
    };
    assert!(!c.needs_live_scenes());
    let cmds = c.plan(&None).unwrap();
    assert_eq!(cmds, vec![Command::ActivateScene { id: "s1".to_string() }]);
}

#[test]
fn ledfx_reset_deactivates_each_listed_scene_in_order() {
    let c = Ledfx { endpoint: Some("http://localhost:8888".to_string()), scene_id: TriState::Reset };
    assert!(c.needs_live_scenes());
    let listing = pairs(&[("Sunset", "s1"), ("Rainy", "s2"), ("Calm", "s3")]);
    let cmds = c.plan(&Some(listing)).unwrap();
    assert_eq!(
        cmds,
        vec![
            Command::DeactivateScene { id: "s1".to_string() },
            Command::DeactivateScene { id: "s2".to_string() },
            Command::DeactivateScene { id: "s3".to_string() },
        ]
    );
}

#[test]
fn ledfx_reset_without_endpoint_fails() {
    let c = Ledfx { endpoint: None, scene_id: TriState::Reset };
    assert_eq!(c.plan(&None), Err(LedfxError::MissingEndpoint));
}

#[test]
fn ledfx_scene_listing_is_swapped_to_name_to_id() {
    let c = Ledfx { endpoint: Some("http://localhost:8888".to_string()), scene_id: TriState::Unset };
    let response = pairs(&[("s1", "Sunset"), ("s2", "Rainy")]);
    let mapping = c.get_available_scenes(Some(response)).unwrap();
    assert_eq!(mapping, pairs(&[("Sunset", "s1"), ("Rainy", "s2")]));
}

#[test]
fn ledfx_missing_scene_collection_is_server_failure() {
    let c = Ledfx { endpoint: Some("http://localhost:8888".to_string()), scene_id: TriState::Unset };
    assert_eq!(c.get_available_scenes(None), Err(LedfxError::ServerFailure));
}

fn blank_windows() -> Windows {
    Windows {
        theme_path: None,
        enable_color_prevalence: None,
        light_mode: None,
        cursor_scheme: None,
    }
}

#[test]
fn windows_new_is_blank() {
    let c = Windows::new().unwrap();
    assert_eq!(c, blank_windows());
    assert_eq!(c.verify(), Ok(()));
}

#[test]
fn windows_blank_plans_nothing() {
    assert_eq!(blank_windows().plan(&None).unwrap(), Vec::<Command>::new());
}

#[test]
fn windows_light_mode_writes_both_flags() {
    let c = Windows { light_mode: Some(true), ..blank_windows() };
    let cmds = c.plan(&None).unwrap();
    assert_eq!(
        cmds,
        vec![
            Command::SetPersonalizeFlag { name: "AppsUseLightTheme".to_string(), value: 1 },
            Command::SetPersonalizeFlag { name: "SystemUsesLightTheme".to_string(), value: 1 },
        ]
    );
}

#[test]
fn windows_color_prevalence_writes_one_flag() {
    let c = Windows { enable_color_prevalence: Some(false), ..blank_windows() };
    let cmds = c.plan(&None).unwrap();
    assert_eq!(
        cmds,
        vec![Command::SetPersonalizeFlag { name: "ColorPrevalence".to_string(), value: 0 }]
    );
}

#[test]
fn windows_theme_file_runs_only_with_theme_extension() {
    let c = Windows { theme_path: Some("C:\\Users\\me\\dark.theme".to_string()), ..blank_windows() };
    assert_eq!(
        c.plan(&None).unwrap(),
        vec![Command::RunThemeFile { path: "C:\\Users\\me\\dark.theme".to_string() }]
    );
    let c = Windows { theme_path: Some("C:\\Users\\me\\dark.exe".to_string()), ..blank_windows() };
    assert_eq!(c.plan(&None).unwrap(), Vec::<Command>::new());
}

#[test]
fn windows_named_scheme_writes_exactly_fifteen_slots_in_order() {
    let roles = [
        "Arrow", "Help", "AppStarting", "Wait", "Crosshair", "IBeam", "NWPen", "No", "SizeNS",
        "SizeWE", "SizeNWSE", "SizeNESW", "SizeAll", "UpArrow", "Hand",
    ];
    let c = Windows {
        cursor_scheme: Some(CursorScheme::UserScheme("Mine".to_string())),
        ..blank_windows()
    };
    let cmds = c.plan(&Some("a.cur,b.cur".to_string())).unwrap();
    assert_eq!(cmds.len(), 18);
    assert_eq!(cmds[0], Command::SetSchemeSource { value: 1 });
    assert_eq!(cmds[1], Command::SetActiveSchemeName { name: "Mine".to_string() });
    let slots: Vec<&Command> = cmds[2..17].iter().collect();
    assert_eq!(slots.len(), 15);
    for (i, slot) in slots.iter().enumerate() {
        let file = if i == 0 {
            "a.cur"
        } else if i == 1 {
            "b.cur"
        } else {
            ""
        };
        assert_eq!(
            **slot,
            Command::SetCursorSlot { role: roles[i].to_string(), file: file.to_string() }
        );
    }
    assert_eq!(cmds[17], Command::NotifyCursorsChanged);
}

#[test]
fn windows_default_scheme_clears_everything() {
    let c = Windows {
        cursor_scheme: Some(CursorScheme::WindowsDefault),
        ..blank_windows()
    };
    let cmds = c.plan(&None).unwrap();
    assert_eq!(cmds.len(), 18);
    assert_eq!(cmds[0], Command::SetSchemeSource { value: 0 });
    assert_eq!(cmds[1], Command::SetActiveSchemeName { name: String::new() });
    for i in 0..15 {
        assert!(matches!(&cmds[2 + i], Command::SetCursorSlot { file, .. } if file.is_empty()));
    }
    assert_eq!(cmds[17], Command::NotifyCursorsChanged);
}

#[test]
fn windows_system_scheme_uses_system_source() {
    let c = Windows {
        cursor_scheme: Some(CursorScheme::SystemScheme("Aero".to_string())),
        ..blank_windows()
    };
    let cmds = c.plan(&Some("x".to_string())).unwrap();
    assert_eq!(cmds[0], Command::SetSchemeSource { value: 2 });
    assert_eq!(cmds[1], Command::SetActiveSchemeName { name: "Aero".to_string() });
}

#[test]
fn windows_missing_scheme_data_is_scheme_not_found() {
    let c = Windows {
        cursor_scheme: Some(CursorScheme::UserScheme("Gone".to_string())),
        ..blank_windows()
    };
    assert_eq!(c.plan(&None), Err(WindowsError::SchemeNotFound));
}

#[test]
fn windows_bool_to_data_values() {
    assert_eq!(Windows::bool_to_data(true), 1);
    assert_eq!(Windows::bool_to_data(false), 0);
}

#[test]
fn cursor_role_order_is_fixed() {
    assert_eq!(cursor_role(0), "Arrow");
    assert_eq!(cursor_role(3), "Wait");
    assert_eq!(cursor_role(14), "Hand");
}

#[test]
fn split_roles_splits_on_commas() {
    let as_strings = |v: Vec<String>| v;
    assert_eq!(as_strings(split_roles("a,b,c")), vec!["a", "b", "c"]);
    assert_eq!(as_strings(split_roles("")), vec![""]);
    assert_eq!(as_strings(split_roles("a,,b")), vec!["a", "", "b"]);
    assert_eq!(as_strings(split_roles("one")), vec!["one"]);
}

#[test]
fn theme_extension_is_checked_exactly() {
    assert!(has_theme_extension("C:\\themes\\dark.theme"));
    assert!(has_theme_extension("dark.theme"));
    assert!(has_theme_extension("a.b.theme"));
    assert!(has_theme_extension("dir/sub/dark.theme/"));
    assert!(!has_theme_extension(".theme"));
    assert!(!has_theme_extension("themes/.theme"));
    assert!(!has_theme_extension("dark.Theme"));
    assert!(!has_theme_extension("dark.themes"));
    assert!(!has_theme_extension("darktheme"));
    assert!(!has_theme_extension("dir.theme\\file"));
}

#[test]
fn wpeng_new_follows_discovery_chain() {
    assert_eq!(
        Wpeng::new(None, None),
        Err(WpengError::ErrorDetectingConfig)
    );
    assert_eq!(
        Wpeng::new(Some("wpeng.cfg".to_string()), None),
        Err(WpengError::ErrorDetectingExe)
    );
    let c = Wpeng::new(Some("wpeng.cfg".to_string()), Some("wpeng.exe".to_string())).unwrap();
    assert_eq!(c.exe, "wpeng.exe");
    assert!(c.wallpapers.is_empty());
}

#[test]
fn wpeng_verify_needs_fresh_config() {
    let c = Wpeng { wallpapers: Vec::new(), exe: "wpeng.exe".to_string() };
    assert_eq!(c.verify(Some("wpeng.cfg".to_string())), Ok(()));
    assert_eq!(c.verify(None), Err(WpengError::ErrorDetectingConfig));
}

#[test]
fn wpeng_set_and_get_wallpaper() {
    let mut c = Wpeng { wallpapers: Vec::new(), exe: "wpeng.exe".to_string() };
    c.set_wallpaper(0, Some("Ocean".to_string()));
    c.set_wallpaper(1, None);
    c.set_wallpaper(0, Some("Forest".to_string()));
    assert_eq!(c.wallpapers.len(), 2);
    assert_eq!(c.clone().get_wallpaper(0), Some(Some("Forest".to_string())));
    assert_eq!(c.clone().get_wallpaper(1), Some(None));
    assert_eq!(c.get_wallpaper(7), None);
}

#[test]
fn wpeng_catalogue_detection_failure() {
    let c = Wpeng { wallpapers: Vec::new(), exe: "wpeng.exe".to_string() };
    assert_eq!(c.get_wallpaper_options(None), Err(WpengError::ErrorDetectingWallpapers));
    let c = Wpeng { wallpapers: Vec::new(), exe: "wpeng.exe".to_string() };
    let cat = pairs(&[("Ocean", "C:\\wp\\ocean")]);
    assert_eq!(c.get_wallpaper_options(Some(cat.clone())).unwrap(), cat);
}

#[test]
fn wpeng_empty_mapping_plans_nothing() {
    let c = Wpeng { wallpapers: Vec::new(), exe: "wpeng.exe".to_string() };
    let cat = pairs(&[("Ocean", "C:\\wp\\ocean")]);
    assert_eq!(c.plan(&cat).unwrap(), Vec::<Command>::new());
}

#[test]
fn wpeng_reset_entry_plans_one_remove() {
    let c = Wpeng {
        wallpapers: vec![(2, None)],
        exe: "wpeng.exe".to_string(),
    };
    let cat = pairs(&[("Ocean", "C:\\wp\\ocean")]);
    assert_eq!(c.plan(&cat).unwrap(), vec![Command::RemoveWallpaper { display: 2 }]);
}

#[test]
fn wpeng_named_entry_opens_catalogued_path() {
    let c = Wpeng {
        wallpapers: vec![(0, Some("Ocean".to_string())), (1, None)],
        exe: "wpeng.exe".to_string(),
    };
    let cat = pairs(&[("Ocean", "C:\\wp\\ocean")]);
    assert_eq!(
        c.plan(&cat).unwrap(),
        vec![
            Command::OpenWallpaper { path: "C:\\wp\\ocean".to_string(), display: 0 },
            Command::RemoveWallpaper { display: 1 },
        ]
    );
}

#[test]
fn wpeng_missing_wallpaper_fails_and_plans_nothing() {
    let c = Wpeng {
        wallpapers: vec![(0, Some("Gone".to_string()))],
        exe: "wpeng.exe".to_string(),
    };
    let cat = pairs(&[("Ocean", "C:\\wp\\ocean")]);
    assert_eq!(c.plan(&cat), Err(WpengError::MissingWallpaper));
}

#[test]
fn command_failure_severity() {
    assert!(Command::SetTheme { id: "t".to_string() }.failure_aborts());
    assert!(Command::RemoveWallpaper { display: 0 }.failure_aborts());
    assert!(!Command::NotifyCursorsChanged.failure_aborts());
}

#[test]
fn error_messages_are_descriptive() {
    assert_eq!(PprefoxError::MissingEndpoint.message(), "No pprefox endpoint selected");
    assert_eq!(PprefoxError::ExtensionFailure.message(), "Extension request failed");
    assert_eq!(LedfxError::MissingEndpoint.message(), "No ledfx endpoint selected");
    assert_eq!(LedfxError::ServerFailure.message(), "LEDFX request failed");
    assert_eq!(WindowsError::SchemeNotFound.message(), "cursor scheme not found");
    assert_eq!(
        WpengError::ErrorDetectingConfig.message(),
        "Error detecting wallpaper engine config"
    );
    assert_eq!(WpengError::ErrorDetectingExe.message(), "Error detecting wallpaper engine exe");
    assert_eq!(
        WpengError::ErrorDetectingWallpapers.message(),
        "Error detecting wallpaper engine wallpapers"
    );
    assert_eq!(
        WpengError::ErrorLaunchingProcess.message(),
        "Error launching wallpaper engine control process"
    );
    assert_eq!(WpengError::MissingWallpaper.message(), "Selected a missing wallpaper");
}

#[test]
fn tristate_unset_check() {
    assert!(TriState::Unset.is_unset());
    assert!(!TriState::Reset.is_unset());
    assert!(!TriState::Named("x".to_string()).is_unset());
}
