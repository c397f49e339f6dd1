use piforma_panel::config::PanelConfig;
use piforma_panel::desktop_entries::{
    broad_group, is_control_panel, parse_bool, parse_desktop_file, scan_desktop_apps, DesktopFile,
};

fn file(name: &str, contents: &str) -> DesktopFile {
    DesktopFile { file_name: Some(name.to_string()), contents: contents.to_string() }
}

#[test]
fn scans_visible_desktop_applications() {
    let files = vec![file(
        "calculator.desktop",
        r#"
[Desktop Entry]
Type=Application
Name=Calculator
Exec=xcalc %U
Icon=accessories-calculator
Categories=Utility;Calculator;
"#,
    )];
    let config = PanelConfig::default();

    let apps = scan_desktop_apps(&config, &files);

    assert_eq!(apps.len(), 1);
    assert_eq!(apps[0].id, "calculator.desktop");
    assert_eq!(apps[0].name, "Calculator");
    assert_eq!(apps[0].exec_command, "xcalc %U");
    assert_eq!(apps[0].icon.as_deref(), Some("accessories-calculator"));
    assert_eq!(apps[0].group, "System");
}

#[test]
fn filters_no_display_apps_unless_enabled() {
    let files = vec![file(
        "hidden.desktop",
        r#"
[Desktop Entry]
Type=Application
Name=Hidden
Exec=hidden
NoDisplay=true
"#,
    )];
    let mut config = PanelConfig::default();

    assert!(scan_desktop_apps(&config, &files).is_empty());

    config.applications.show_no_display = true;
    assert_eq!(scan_desktop_apps(&config, &files).len(), 1);
}

#[test]
fn identifies_control_panel_categories() {
    let files = vec![file(
        "settings.desktop",
        r#"
[Desktop Entry]
Type=Application
Name=Settings
Exec=settings
Categories=Settings;HardwareSettings;
"#,
    )];
    let config = PanelConfig::default();

    let apps = scan_desktop_apps(&config, &files);

    assert_eq!(apps.len(), 1);
    assert!(apps[0].is_control_panel);
    assert_eq!(apps[0].group, "Settings");
}

#[test]
fn first_file_of_an_id_wins_and_list_is_ordered() {
    let config = PanelConfig::default();
    let files = vec![
        file("b.desktop", "[Desktop Entry]\nName=banana\nExec=b\nCategories=Game;\n"),
        file("a.desktop", "[Desktop Entry]\nName=Apple\nExec=a\nCategories=Game;\n"),
        file("b.desktop", "[Desktop Entry]\nName=Bogus\nExec=bogus\n"),
        file("c.desktop", "[Desktop Entry]\nName=apple\nExec=c\nCategories=Education;\n"),
        file("z.desktop", "[Desktop Entry]\nName=Zed\nExec=z\n"),
    ];
    let apps = scan_desktop_apps(&config, &files);
    let ids: Vec<&str> = apps.iter().map(|a| a.id.as_str()).collect();
    assert_eq!(ids, vec!["c.desktop", "a.desktop", "b.desktop", "z.desktop"]);
    assert_eq!(apps[2].exec_command, "b");
}

#[test]
fn names_are_ordered_ignoring_case() {
    let config = PanelConfig::default();
    let files = vec![
        file("1.desktop", "[Desktop Entry]\nName=Banana\nExec=b\n"),
        file("2.desktop", "[Desktop Entry]\nName=apple\nExec=a\n"),
    ];
    let apps = scan_desktop_apps(&config, &files);
    assert_eq!(apps[0].name, "apple");
    assert_eq!(apps[1].name, "Banana");
}

#[test]
fn entries_outside_the_desktop_entry_section_and_skipped_files() {
    let config = PanelConfig::default();
    let contents = "# comment\nName=Outside\n[Desktop Entry]\n  Name = Spaced \nName=Inside\nExec=run\n[Desktop Action new]\nName=Action\n";
    let app = parse_desktop_file(Some("x.desktop"), contents, &config).expect("an application");
    assert_eq!(app.name, "Inside");
    assert_eq!(app.categories, Vec::<String>::new());
    assert_eq!(app.group, "Other");
    assert!(parse_desktop_file(Some("l.desktop"), "[Desktop Entry]\nType=Link\nName=L\nExec=l\n", &config).is_none());
    assert!(parse_desktop_file(Some("h.desktop"), "[Desktop Entry]\nHidden=TRUE\nName=H\nExec=h\n", &config).is_none());
    assert!(parse_desktop_file(Some("n.desktop"), "[Desktop Entry]\nExec=n\n", &config).is_none());
    assert!(parse_desktop_file(Some("e.desktop"), "[Desktop Entry]\nName=E\n", &config).is_none());
    let unnamed = parse_desktop_file(None, "[Desktop Entry]\r\nName=Named\r\nExec=x\r\n", &config).expect("an application");
    assert_eq!(unnamed.id, "Named");
}

#[test]
fn categories_values_and_groups() {
    assert!(parse_bool(Some(&"True".to_string())));
    assert!(!parse_bool(Some(&"yes".to_string())));
    assert!(!parse_bool(None));
    let cats = vec!["Calculator".to_string(), "Network".to_string(), "Settings".to_string()];
    assert_eq!(broad_group(&cats), "Internet");
    assert!(is_control_panel(&cats));
    let app = parse_desktop_file(
        Some("m.desktop"),
        "[Desktop Entry]\nName=M\nExec=m\nCategories= AudioVideo ; ;Player;\n",
        &PanelConfig::default(),
    )
    .expect("an application");
    assert_eq!(app.categories, vec!["AudioVideo", "Player"]);
    assert_eq!(app.group, "Sound & Video");
    assert!(!app.is_control_panel);
}
