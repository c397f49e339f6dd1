use piforma_panel::desktop_entries::{scan_desktop_apps, DesktopFile};
use piforma_panel::config::PanelConfig;
use piforma_panel::diagnostics::{verbose_for_config, verbose_from_env};
use piforma_panel::panel_commands::{
    build_info, data_url, get_apple_logo_data_url, image_mime_type, is_desktop_file,
    list_applications, list_control_panels, tauri_asset_diagnostics, tauri_asset_report,
};
use piforma_panel::window_management::{require_x11_tools, show_all_windows, toggle_show_desktop};

#[test]
fn build_info_defaults_to_unknown() {
    let info = build_info(None, Some("main"), None, None);
    assert_eq!(info.commit, "unknown");
    assert_eq!(info.branch, "main");
    assert_eq!(info.built_at, "unknown");
    assert!(!info.dirty);
    assert!(build_info(None, None, None, Some("true")).dirty);
    assert!(!build_info(None, None, None, Some("yes")).dirty);
}

#[test]
fn logo_is_encoded_as_a_data_url() {
    assert_eq!(
        get_apple_logo_data_url("/home/pi/apple-color.png", b"abc"),
        "data:image/png;base64,YWJj"
    );
    assert_eq!(get_apple_logo_data_url("logo.JPG", b"ab"), "data:image/png;base64,YWI=");
    assert_eq!(get_apple_logo_data_url("logo.jpeg", b""), "data:image/jpeg;base64,");
    assert_eq!(data_url("image/gif", "R0"), "data:image/gif;base64,R0");
}

#[test]
fn image_types_follow_the_extension() {
    assert_eq!(image_mime_type("/a/b.svg"), "image/svg+xml");
    assert_eq!(image_mime_type("/a/b.webp"), "image/webp");
    assert_eq!(image_mime_type("/a/b.gif/"), "image/gif");
    assert_eq!(image_mime_type("/a/.gif"), "image/png");
    assert_eq!(image_mime_type("/a/b.tar.jpg"), "image/jpeg");
    assert!(is_desktop_file("/usr/share/applications/xcalc.desktop"));
    assert!(!is_desktop_file("/usr/share/applications/.desktop"));
    assert!(!is_desktop_file("/usr/share/applications/notes.txt"));
}

#[test]
fn launcher_lists_split_control_panels() {
    let files = vec![
        DesktopFile { file_name: Some("s.desktop".to_string()), contents: "[Desktop Entry]\nName=S\nExec=s\nCategories=System;\n".to_string() },
        DesktopFile { file_name: Some("g.desktop".to_string()), contents: "[Desktop Entry]\nName=G\nExec=g\nCategories=Game;\n".to_string() },
    ];
    let apps = scan_desktop_apps(&PanelConfig::default(), &files);
    let applications = list_applications(apps.clone());
    let panels = list_control_panels(apps);
    assert_eq!(applications.len(), 1);
    assert_eq!(applications[0].id, "g.desktop");
    assert_eq!(panels.len(), 1);
    assert_eq!(panels[0].id, "s.desktop");
}

#[test]
fn verbosity_comes_from_environment_or_config() {
    assert!(verbose_from_env(Some("YES")));
    assert!(!verbose_from_env(Some("Yes")));
    assert!(!verbose_from_env(None));
    let mut config = PanelConfig::default();
    assert!(!verbose_for_config(None, &config));
    config.diagnostics.verbose = true;
    assert!(verbose_for_config(None, &config));
}

#[test]
fn window_management_needs_its_tools() {
    assert_eq!(
        toggle_show_desktop(false, false),
        Err("window management requires: wmctrl, xdotool".to_string())
    );
    assert_eq!(
        show_all_windows(true, false, false),
        Err("Show All Windows requires zenity or yad".to_string())
    );
    let script = show_all_windows(true, false, true).expect("tools are installed");
    assert!(script.contains("grep -Eiq 'PiForma Panel|PiForma Menu|Control Strip"));
    assert!(script.contains("--column='Window ID'"));
    let script = toggle_show_desktop(true, true).expect("tools are installed");
    assert!(script.contains("state=\"${XDG_RUNTIME_DIR:-/tmp}/piforma-show-desktop-${UID:-$(id -u)}.windows\""));
    assert_eq!(
        require_x11_tools(&vec!["wmctrl", "xdotool"], &vec![true, false]),
        Err("window management requires: xdotool".to_string())
    );
    assert_eq!(require_x11_tools(&vec!["wmctrl"], &vec![true]), Ok(()));
}

#[test]
fn asset_report_names_the_bundled_dist_and_csp() {
    assert_eq!(
        tauri_asset_report(Some("../dist"), Some("null")),
        "tauri asset config: frontendDist=../dist, frontendDist_is_bundled_dist=true, app.security.csp=null"
    );
    assert_eq!(
        tauri_asset_report(Some("http://localhost:1420"), None),
        "tauri asset config: frontendDist=http://localhost:1420, frontendDist_is_bundled_dist=false, app.security.csp=missing"
    );
    assert_eq!(
        tauri_asset_report(None, Some("\"default-src 'self'\"")),
        "tauri asset config: frontendDist=missing, frontendDist_is_bundled_dist=false, app.security.csp=\"default-src 'self'\""
    );
}

#[test]
fn asset_diagnostics_read_the_tauri_configuration() {
    let conf = r#"{"build":{"frontendDist":"../dist"},"app":{"security":{"csp":null}}}"#;
    assert_eq!(
        tauri_asset_diagnostics(conf),
        Ok("tauri asset config: frontendDist=../dist, frontendDist_is_bundled_dist=true, app.security.csp=null".to_string())
    );
    let conf = r#"{"build":{"frontendDist":"http://localhost:1420"},"app":{"security":{"csp":"default-src 'self'"}}}"#;
    assert_eq!(
        tauri_asset_diagnostics(conf),
        Ok("tauri asset config: frontendDist=http://localhost:1420, frontendDist_is_bundled_dist=false, app.security.csp=\"default-src 'self'\"".to_string())
    );
    assert_eq!(
        tauri_asset_diagnostics(r#"{"build":{"frontendDist":7}}"#),
        Ok("tauri asset config: frontendDist=missing, frontendDist_is_bundled_dist=false, app.security.csp=missing".to_string())
    );
    let error = tauri_asset_diagnostics("{ not json").expect_err("not JSON");
    assert!(error.starts_with("tauri asset config: failed to parse tauri.conf.json: "));
    assert!(error.len() > "tauri asset config: failed to parse tauri.conf.json: ".len());
}

#[test]
fn logo_bytes_use_the_whole_base64_alphabet() {
    assert_eq!(get_apple_logo_data_url("x.png", &[0xff, 0xfe, 0xfd]), "data:image/png;base64,//79");
    assert_eq!(get_apple_logo_data_url("x.png", b"abcd"), "data:image/png;base64,YWJjZA==");
    assert_eq!(get_apple_logo_data_url("x.gif", &[0, 16, 131]), "data:image/gif;base64,ABCD");
}
