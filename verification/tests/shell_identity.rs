use piforma_panel::shell_identity::{
    is_piforma_panel_title, is_shell_window_title, ShellWindowRole, PIFORMA_PANEL_APP_ID, PIFORMA_PANEL_WM_CLASS,
};
use piforma_panel::window_management::SHELL_WINDOW_PATTERN;
use piforma_panel::window_manager::{
    activation_command, activation_outcome, is_panel_window, remember_active_window, WindowMemory,
};

#[test]
fn roles_have_stable_labels_titles_and_window_roles() {
    assert_eq!(ShellWindowRole::MainPanel.tauri_label(), "main");
    assert_eq!(ShellWindowRole::MainPanel.title(), "PiForma Panel");
    assert_eq!(
        ShellWindowRole::MainPanel.window_role(),
        "piforma-panel.main-panel"
    );
    assert_eq!(ShellWindowRole::MenuPopup.tauri_label(), "menu-popup");
    assert_eq!(
        ShellWindowRole::MenuFlyout.window_role(),
        "piforma-panel.menu-flyout"
    );
}

#[test]
fn title_matching_is_a_fallback_only() {
    assert!(is_piforma_panel_title("PiForma Panel"));
    assert!(is_piforma_panel_title("piforma-panel"));
    assert!(!is_piforma_panel_title("Terminal"));
}

#[test]
fn shell_pattern_covers_core_piforma_components() {
    for name in ["PiForma Panel", "Control Strip", "At Ease", "Clippy"] {
        assert!(SHELL_WINDOW_PATTERN.contains(name));
    }
}

#[test]
fn every_shell_title_is_recognized() {
    for role in [
        ShellWindowRole::MainPanel,
        ShellWindowRole::MenuPopup,
        ShellWindowRole::MenuFlyout,
    ] {
        assert!(is_piforma_panel_title(role.title()));
        assert!(role.window_role().starts_with("piforma-panel."));
    }
    assert!(is_piforma_panel_title("Classic PiForma menu bar"));
    assert!(is_piforma_panel_title("launcher of piforma-panel v2"));
    assert!(!is_piforma_panel_title("PiForma"));
    assert_eq!(PIFORMA_PANEL_APP_ID, "org.piforma.panel");
    assert_eq!(PIFORMA_PANEL_WM_CLASS, "org.piforma.panel");
}

#[test]
fn remembered_window_is_read_back() {
    let mut memory = WindowMemory::default();
    assert_eq!(
        memory.remembered_window(),
        Err("no previously active window remembered".to_string())
    );
    assert_eq!(remember_active_window(&mut memory, "0x3c00007", Some("Terminal")), Ok(()));
    assert_eq!(memory.remembered_window(), Ok("0x3c00007".to_string()));
}

#[test]
fn panel_windows_and_empty_ids_are_not_remembered() {
    let mut memory = WindowMemory::default();
    assert_eq!(remember_active_window(&mut memory, "42", None), Ok(()));
    assert_eq!(
        remember_active_window(&mut memory, "", Some("Terminal")),
        Err("xdotool did not return an active window".to_string())
    );
    assert_eq!(remember_active_window(&mut memory, "43", Some("PiForma Menu")), Ok(()));
    assert_eq!(memory.remembered_window(), Ok("42".to_string()));
    assert!(is_panel_window(Some("PiForma Menu Flyout")));
    assert!(!is_panel_window(None));
}

#[test]
fn shell_windows_are_never_remembered() {
    let mut memory = WindowMemory::default();
    for title in ["Control Strip", "At Ease", "at-ease", "Clippy says hi", "PIFORMA WINDOW OVERVIEW"] {
        assert!(is_shell_window_title(title));
        assert!(is_panel_window(Some(title)));
        assert_eq!(remember_active_window(&mut memory, "42", Some(title)), Ok(()));
        assert_eq!(
            memory.remembered_window(),
            Err("no previously active window remembered".to_string())
        );
    }
    assert!(!is_shell_window_title("Terminal"));
    assert!(!is_shell_window_title("Control"));
    for name in SHELL_WINDOW_PATTERN.split('|') {
        assert!(is_shell_window_title(name));
        assert!(is_shell_window_title(&name.to_lowercase()));
    }
}

#[test]
fn remembered_window_is_activated_with_xdotool() {
    let (program, args) = activation_command("0x3c00007");
    assert_eq!(program, "xdotool");
    assert_eq!(args, vec!["windowactivate", "--sync", "0x3c00007"]);
    assert_eq!(
        activation_outcome("0x3c00007".to_string(), Ok(())),
        Ok("0x3c00007".to_string())
    );
    assert_eq!(
        activation_outcome("0x3c00007".to_string(), Err("xdotool exited with status 1".to_string())),
        Err("xdotool exited with status 1".to_string())
    );
}
