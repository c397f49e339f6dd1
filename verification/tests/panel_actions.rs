use piforma_panel::launcher::clean_exec_command;
use piforma_panel::panel_actions::{
    action_from_request, applications_folder, folder_from_name, PanelRequest, open_folder, plan_panel_action, shortcut_from_name,
    shortcut_key, ActionErrorKind, ActionPlan, ActionResult, FolderId, PanelAction, ShortcutId,
};
use piforma_panel::system_actions::SystemActionId;

#[test]
fn maps_command_failure_to_structured_result() {
    let result = ActionResult::from_command_result(Err("xmessage failed".to_string()));

    assert!(!result.success);
    assert_eq!(result.error_kind, Some(ActionErrorKind::CommandFailed));
    assert_eq!(result.message.as_deref(), Some("xmessage failed"));
}

#[test]
fn cancelled_result_is_legacy_success() {
    let result = ActionResult::failure(ActionErrorKind::Cancelled, "cancelled");

    assert!(result.into_legacy_result().is_ok());
}

#[test]
fn command_result_round_trips_through_legacy_result() {
    assert_eq!(ActionResult::from_command_result(Ok(())).into_legacy_result(), Ok(()));
    assert_eq!(
        ActionResult::from_command_result(Err("xset failed".to_string())).into_legacy_result(),
        Err("xset failed".to_string())
    );
}

#[test]
fn other_failures_report_their_message_through_legacy_result() {
    let result = ActionResult::failure(ActionErrorKind::TargetUnavailable, "HOME is not set");
    assert_eq!(result.into_legacy_result(), Err("HOME is not set".to_string()));
    let bare = ActionResult { success: false, message: None, error_kind: None };
    assert_eq!(bare.into_legacy_result(), Err("panel action failed".to_string()));
}

#[test]
fn success_result_has_no_error_kind() {
    let result = ActionResult::success(Some("done".to_string()));
    assert!(result.success);
    assert_eq!(result.error_kind, None);
    assert_eq!(result.message.as_deref(), Some("done"));
}

#[test]
fn shortcuts_map_to_xdotool_keys() {
    assert_eq!(shortcut_key(ShortcutId::Undo), "ctrl+z");
    assert_eq!(shortcut_key(ShortcutId::Cut), "ctrl+x");
    assert_eq!(shortcut_key(ShortcutId::Copy), "ctrl+c");
    assert_eq!(shortcut_key(ShortcutId::Paste), "ctrl+v");
    assert_eq!(shortcut_key(ShortcutId::Clear), "Delete");
    assert_eq!(shortcut_key(ShortcutId::SelectAll), "ctrl+a");
    assert_eq!(shortcut_from_name("select_all"), Ok(ShortcutId::SelectAll));
    assert_eq!(
        shortcut_from_name("redo"),
        Err("unknown shortcut action: redo".to_string())
    );
}

#[test]
fn folders_are_named_and_resolved() {
    assert_eq!(folder_from_name("desktop"), Ok(FolderId::Desktop));
    assert_eq!(folder_from_name("trash"), Err("unknown folder: trash".to_string()));
    assert_eq!(applications_folder("/home/pi"), "/home/pi/.local/share/applications");
    assert_eq!(applications_folder("/home/pi/"), "/home/pi/.local/share/applications");
}

#[test]
fn open_folder_tries_file_managers_in_order() {
    let commands = open_folder(Ok("/home/pi".to_string())).expect("target is known");
    assert_eq!(
        commands,
        vec![
            vec!["xdg-open".to_string(), "/home/pi".to_string()],
            vec!["gio".to_string(), "open".to_string(), "/home/pi".to_string()],
            vec!["pcmanfm".to_string(), "/home/pi".to_string()],
        ]
    );
    let failure = open_folder(Err("HOME is not set".to_string())).expect_err("no target");
    assert_eq!(failure.error_kind, Some(ActionErrorKind::TargetUnavailable));
    assert_eq!(failure.message.as_deref(), Some("HOME is not set"));
}

#[test]
fn plans_follow_the_requested_action() {
    match plan_panel_action(&PanelAction::LaunchApp {
        exec_command: "xcalc %U".to_string(),
        name: "Calculator".to_string(),
    }) {
        ActionPlan::DetachedShell(command) => assert_eq!(command, "xcalc"),
        _ => panic!("launching an application runs its command line"),
    }
    match plan_panel_action(&PanelAction::LaunchCalculator) {
        ActionPlan::DetachedFallbacks(commands) => {
            assert_eq!(commands.len(), 5);
            assert_eq!(commands[0], vec!["xcalc".to_string()]);
            assert_eq!(commands[4], vec!["kcalc".to_string()]);
        }
        _ => panic!("the calculator is launched with fallbacks"),
    }
    match plan_panel_action(&PanelAction::NewTerminalWindow) {
        ActionPlan::DetachedFallbacks(commands) => {
            assert_eq!(commands.len(), 6);
            assert_eq!(commands[0], vec!["x-terminal-emulator".to_string()]);
        }
        _ => panic!("a terminal is launched with fallbacks"),
    }
    match plan_panel_action(&PanelAction::ShowAbout) {
        ActionPlan::Detached { program, args } => {
            assert_eq!(program, "about-piforma");
            assert!(args.is_empty());
        }
        _ => panic!("the About box is launched detached"),
    }
    match plan_panel_action(&PanelAction::SendShortcut { action: ShortcutId::Copy }) {
        ActionPlan::SendKey(key) => assert_eq!(key, "ctrl+c"),
        _ => panic!("a shortcut sends its key"),
    }
    match plan_panel_action(&PanelAction::RunSystemAction {
        action: SystemActionId::Restart,
        confirmed: true,
    }) {
        ActionPlan::System { action, confirmed } => {
            assert_eq!(action, SystemActionId::Restart);
            assert!(confirmed);
        }
        _ => panic!("a system action is carried out as such"),
    }
    assert_eq!(clean_exec_command("xcalc %U", "Calculator"), "xcalc");
}

#[test]
fn older_command_requests_read_back_as_actions() {
    assert_eq!(
        action_from_request(PanelRequest::OpenFolder { folder: "desktop".to_string() }),
        Ok(PanelAction::OpenFolder { folder: FolderId::Desktop })
    );
    assert_eq!(
        action_from_request(PanelRequest::SendShortcut { action: "select_all".to_string() }),
        Ok(PanelAction::SendShortcut { action: ShortcutId::SelectAll })
    );
    assert_eq!(
        action_from_request(PanelRequest::RunSystemAction {
            action: "shut_down".to_string(),
            confirmed: true,
        }),
        Ok(PanelAction::RunSystemAction { action: SystemActionId::ShutDown, confirmed: true })
    );
    assert_eq!(
        action_from_request(PanelRequest::LaunchApp {
            exec_command: "xcalc %U".to_string(),
            name: "Calculator".to_string(),
        }),
        Ok(PanelAction::LaunchApp {
            exec_command: "xcalc %U".to_string(),
            name: "Calculator".to_string(),
        })
    );
    assert_eq!(action_from_request(PanelRequest::ShowAbout), Ok(PanelAction::ShowAbout));
    assert_eq!(
        action_from_request(PanelRequest::OpenFolder { folder: "music".to_string() }),
        Err("unknown folder: music".to_string())
    );
    assert_eq!(
        action_from_request(PanelRequest::SendShortcut { action: "redo".to_string() }),
        Err("unknown shortcut action: redo".to_string())
    );
    assert_eq!(
        action_from_request(PanelRequest::RunSystemAction {
            action: "sleep".to_string(),
            confirmed: false,
        }),
        Err("unknown system action: sleep".to_string())
    );
}
