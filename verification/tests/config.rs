use piforma_panel::config::{
    config_dimension, config_path, config_text_is_blank, expand_user_path, load_config,
    normalize_config, PanelConfig, DEFAULT_CONFIG, MENU_HEIGHT_MAX, PANEL_RADIUS_MAX,
};

const HOME: &str = "/home/tester";

fn load(parsed: PanelConfig) -> PanelConfig {
    load_config(Ok(parsed), Some(HOME)).expect("configuration should load").0
}

#[test]
fn empty_config_loads_defaults() {
    assert!(config_text_is_blank(""));
    let config = load(PanelConfig::default());

    assert_eq!(config.bar.width, 658);
    assert_eq!(config.bar.height, 20);
    assert_eq!(config.bar.x, 76);
    assert_eq!(config.clock.format, "%I:%M %p");
    assert!(config.menus.show_file);
    assert_eq!(config.applications.max_menu_height, 420);
}

#[test]
fn partial_config_fills_missing_sections_and_fields() {
    assert!(!config_text_is_blank("\nclock:\n  enabled: false\n"));
    let mut parsed = PanelConfig::default();
    parsed.clock.enabled = false;
    let config = load(parsed);

    assert!(!config.clock.enabled);
    assert_eq!(config.clock.format, "%I:%M %p");
    assert_eq!(config.bar.width, 658);
    assert!(config.menus.show_special);
    assert_eq!(config.applications.scan_dirs.len(), 3);
}

#[test]
fn blank_text_is_recognized() {
    assert!(config_text_is_blank(" \n\t "));
    assert!(!config_text_is_blank("bar:\n"));
}

#[test]
fn valid_overrides_are_preserved() {
    let mut parsed = PanelConfig::default();
    parsed.bar.width = 700;
    parsed.bar.height = 24;
    parsed.bar.x = -12;
    parsed.bar.y = 3;
    parsed.bar.radius_top_left = 4;
    parsed.bar.font_size = 15;
    parsed.menus.show_view = false;
    parsed.applications.scan_dirs = vec!["/tmp/apps".to_string()];
    parsed.applications.max_menu_height = 300;
    parsed.actions.clean_up_window_command = "arrange-windows".to_string();
    let config = load(parsed);

    assert_eq!(config.bar.width, 700);
    assert_eq!(config.bar.height, 24);
    assert_eq!(config.bar.x, -12);
    assert_eq!(config.bar.y, 3);
    assert_eq!(config.bar.radius_top_left, 4);
    assert_eq!(config.bar.radius_top_right, 18);
    assert_eq!(config.bar.font_size, 15);
    assert!(!config.menus.show_view);
    assert_eq!(config.applications.scan_dirs, vec!["/tmp/apps"]);
    assert_eq!(config.applications.max_menu_height, 300);
    assert_eq!(config.actions.clean_up_window_command, "arrange-windows");
}

#[test]
fn malformed_yaml_returns_clear_error() {
    let error = load_config(Err("did not find expected node content".to_string()), Some(HOME))
        .expect_err("malformed YAML should fail");

    assert!(error.starts_with("invalid config.yaml:"));
    assert_eq!(error, "invalid config.yaml: did not find expected node content");
}

#[test]
fn invalid_numeric_values_are_clamped() {
    let mut parsed = PanelConfig::default();
    parsed.bar.width = 0;
    parsed.bar.height = -5;
    parsed.bar.radius_top_left = -1;
    parsed.bar.radius_top_right = 999;
    parsed.bar.font_size = 0;
    parsed.applications.max_menu_height = 99999;
    let (config, notes) = load_config(Ok(parsed), Some(HOME)).expect("recoverable");

    assert_eq!(config.bar.width, 1);
    assert_eq!(config.bar.height, 1);
    assert_eq!(config.bar.radius_top_left, 0);
    assert_eq!(config.bar.radius_top_right, PANEL_RADIUS_MAX);
    assert_eq!(config.bar.font_size, 1);
    assert_eq!(config.applications.max_menu_height, MENU_HEIGHT_MAX);
    let names: Vec<&str> = notes.iter().map(|n| n.name.as_str()).collect();
    assert_eq!(
        names,
        vec![
            "bar.width",
            "bar.height",
            "bar.radius_top_left",
            "bar.radius_top_right",
            "bar.font_size",
            "applications.max_menu_height"
        ]
    );
    assert_eq!(notes[1].original, -5);
    assert_eq!(notes[1].normalized, 1);
}

#[test]
fn large_values_are_capped() {
    let mut config = PanelConfig::default();
    config.bar.width = i32::MAX;
    config.bar.height = 100000;
    config.bar.font_size = 97;
    let notes = normalize_config(&mut config, None);
    assert_eq!(config.bar.width, 8192);
    assert_eq!(config.bar.height, 512);
    assert_eq!(config.bar.font_size, 96);
    assert_eq!(notes.len(), 3);
    let again = normalize_config(&mut config, None);
    assert!(again.is_empty());
}

#[test]
fn user_paths_are_expanded() {
    let mut parsed = PanelConfig::default();
    parsed.apple.logo_path = "~/logo.png".to_string();
    parsed.applications.scan_dirs =
        vec!["~/apps".to_string(), "/usr/share/applications".to_string()];
    let config = load(parsed);

    let home = HOME;
    assert_eq!(config.apple.logo_path, format!("{home}/logo.png"));
    assert_eq!(config.applications.scan_dirs[0], format!("{home}/apps"));
    assert_eq!(config.applications.scan_dirs[1], "/usr/share/applications");
}

#[test]
fn path_expansion_edge_cases() {
    assert_eq!(expand_user_path("~", Some("/home/a")), "/home/a");
    assert_eq!(expand_user_path("~/", Some("/home/a")), "/home/a/");
    assert_eq!(expand_user_path("~/x", Some("/home/a/")), "/home/a/x");
    assert_eq!(expand_user_path("~//etc", Some("/home/a")), "/etc");
    assert_eq!(expand_user_path("~user/x", Some("/home/a")), "~user/x");
    assert_eq!(expand_user_path("~/x", None), "~/x");
}

#[test]
fn generated_default_config_matches_model_defaults() {
    let parsed: serde_yaml::Value = serde_yaml::from_str(DEFAULT_CONFIG).expect("default config should parse");
    let defaults = PanelConfig::default();

    assert_eq!(parsed["bar"]["width"].as_i64(), Some(defaults.bar.width as i64));
    assert_eq!(parsed["bar"]["height"].as_i64(), Some(defaults.bar.height as i64));
    assert_eq!(parsed["bar"]["x"].as_i64(), Some(defaults.bar.x as i64));
    assert_eq!(parsed["bar"]["y"].as_i64(), Some(defaults.bar.y as i64));
    assert_eq!(parsed["clock"]["format"].as_str(), Some(defaults.clock.format.as_str()));
    assert_eq!(parsed["menus"]["show_file"].as_bool(), Some(defaults.menus.show_file));
    assert_eq!(parsed["apple"]["logo_path"].as_str(), Some(defaults.apple.logo_path.as_str()));
    assert_eq!(
        parsed["applications"]["scan_dirs"][0].as_str(),
        Some(defaults.applications.scan_dirs[0].as_str())
    );
    let config = load(PanelConfig::default());
    let home = HOME;
    assert_eq!(
        config.apple.logo_path,
        format!("{home}/.local/share/piforma-panel/apple-color.png")
    );
    assert_eq!(
        config.applications.scan_dirs[0],
        format!("{home}/.local/share/applications")
    );
}

#[test]
fn config_path_and_dimensions() {
    assert_eq!(
        config_path(Some("/home/pi")),
        Ok("/home/pi/.local/share/piforma-panel/config.yaml".to_string())
    );
    assert_eq!(config_path(None), Err("HOME is not set".to_string()));
    assert_eq!(config_dimension(658, "bar.width"), Ok(658));
    assert_eq!(
        config_dimension(-3, "bar.width"),
        Err("invalid bar.width after normalization: out of range integral type conversion attempted".to_string())
    );
}

#[test]
fn expanding_a_user_path_twice_changes_nothing() {
    for path in ["~", "~/apps", "~//abs", "~/~/x", "/usr/share", "relative", "~user/x"] {
        let once = expand_user_path(path, Some(HOME));
        assert_eq!(expand_user_path(&once, Some(HOME)), once);
    }
    assert_eq!(expand_user_path("~/~/x", Some(HOME)), "/home/tester/~/x");
}

#[test]
fn default_text_holds_every_default() {
    let parsed: serde_yaml::Value =
        serde_yaml::from_str(DEFAULT_CONFIG).expect("default config should parse");
    let d = PanelConfig::default();
    let int = |v: &serde_yaml::Value| v.as_i64();
    assert_eq!(int(&parsed["bar"]["width"]), Some(d.bar.width as i64));
    assert_eq!(int(&parsed["bar"]["height"]), Some(d.bar.height as i64));
    assert_eq!(int(&parsed["bar"]["x"]), Some(d.bar.x as i64));
    assert_eq!(int(&parsed["bar"]["y"]), Some(d.bar.y as i64));
    assert_eq!(int(&parsed["bar"]["radius_top_left"]), Some(d.bar.radius_top_left as i64));
    assert_eq!(int(&parsed["bar"]["radius_top_right"]), Some(d.bar.radius_top_right as i64));
    assert_eq!(parsed["bar"]["font_family"].as_str(), Some(d.bar.font_family.as_str()));
    assert_eq!(int(&parsed["bar"]["font_size"]), Some(d.bar.font_size as i64));
    assert_eq!(parsed["apple"]["logo_path"].as_str(), Some(d.apple.logo_path.as_str()));
    assert_eq!(parsed["clock"]["enabled"].as_bool(), Some(d.clock.enabled));
    assert_eq!(parsed["clock"]["format"].as_str(), Some(d.clock.format.as_str()));
    let dirs: Vec<&str> = parsed["applications"]["scan_dirs"]
        .as_sequence()
        .expect("scan_dirs is a list")
        .iter()
        .map(|v| v.as_str().expect("a path"))
        .collect();
    assert_eq!(dirs, d.applications.scan_dirs);
    let apps = &parsed["applications"];
    assert_eq!(apps["show_no_display"].as_bool(), Some(d.applications.show_no_display));
    assert_eq!(apps["group_by_categories"].as_bool(), Some(d.applications.group_by_categories));
    assert_eq!(apps["show_category_labels"].as_bool(), Some(d.applications.show_category_labels));
    assert_eq!(int(&apps["max_menu_height"]), Some(d.applications.max_menu_height as i64));
    let menus = &parsed["menus"];
    assert_eq!(menus["show_file"].as_bool(), Some(d.menus.show_file));
    assert_eq!(menus["show_edit"].as_bool(), Some(d.menus.show_edit));
    assert_eq!(menus["show_view"].as_bool(), Some(d.menus.show_view));
    assert_eq!(menus["show_special"].as_bool(), Some(d.menus.show_special));
    assert_eq!(
        parsed["actions"]["clean_up_window_command"].as_str(),
        Some(d.actions.clean_up_window_command.as_str())
    );
}
