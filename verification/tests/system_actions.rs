use piforma_panel::config::{ActionsConfig, PanelConfig};
use piforma_panel::panel_actions::ActionErrorKind;
use piforma_panel::system_actions::{clean_up_window_result, confirmation_request, plan_clean_up_window};
use piforma_panel::system_actions::{
    clean_up_window_command, confirmation_dialogs, confirmation_for, confirmed_power_commands,
    dialog_start, dialog_step, parse_system_action, plan_system_action, refresh_command,
    show_clipboard, DialogAction, DialogOutcome, SystemActionId, SystemActionPlan,
    CLIPBOARD_SCRIPT,
};

#[test]
fn system_actions_are_parsed_by_name() {
    assert_eq!(parse_system_action("shut_down"), Ok(SystemActionId::ShutDown));
    assert_eq!(parse_system_action("show_clipboard"), Ok(SystemActionId::ShowClipboard));
    assert_eq!(
        parse_system_action("delete_everything"),
        Err("unknown system action: delete_everything".to_string())
    );
}

#[test]
fn power_actions_require_confirmation() {
    match plan_system_action(SystemActionId::Restart, false) {
        SystemActionPlan::Refuse(result) => {
            assert_eq!(result.error_kind, Some(ActionErrorKind::InvalidRequest));
            assert_eq!(result.message.as_deref(), Some("restart requires confirmation"));
        }
        _ => panic!("unconfirmed restart is refused"),
    }
    match plan_system_action(SystemActionId::ShutDown, true) {
        SystemActionPlan::RunWithFallbacks(commands) => assert_eq!(
            commands,
            vec![vec!["systemctl", "poweroff"], vec!["loginctl", "poweroff"]]
        ),
        _ => panic!("confirmed shutdown powers off"),
    }
    match plan_system_action(SystemActionId::SleepDisplay, false) {
        SystemActionPlan::StartWithFallbacks(commands) => assert_eq!(
            commands,
            vec![vec!["xset", "dpms", "force", "off"], vec!["xset", "s", "activate"]]
        ),
        _ => panic!("sleeping the display starts xset"),
    }
}

#[test]
fn refresh_and_clean_up_commands() {
    let (program, args) = refresh_command(true);
    assert_eq!(program, "xdotool");
    assert_eq!(args, vec!["key", "F5"]);
    let (program, args) = refresh_command(false);
    assert_eq!(program, "xrefresh");
    assert!(args.is_empty());
    assert_eq!(
        clean_up_window_command(&ActionsConfig { clean_up_window_command: "  ".to_string() }),
        None
    );
    assert_eq!(
        clean_up_window_command(&ActionsConfig { clean_up_window_command: "tidy".to_string() }),
        Some("tidy".to_string())
    );
    assert_eq!(show_clipboard(), CLIPBOARD_SCRIPT);
}

#[test]
fn confirmation_dialogs_and_answers() {
    let refused = confirmation_for(SystemActionId::Refresh).expect_err("only power actions");
    assert_eq!(
        refused.message.as_deref(),
        Some("confirmation is only supported for restart and shut_down")
    );
    let spec = confirmation_for(SystemActionId::ShutDown).expect("shutdown is confirmed");
    let dialogs = confirmation_dialogs(&spec);
    assert_eq!(
        dialogs[0],
        vec![
            "zenity",
            "--question",
            "--title=Shut Down",
            "--text=Are you sure you want to shut down PiForma?",
            "--ok-label=Shut Down",
            "--cancel-label=Cancel"
        ]
    );
    assert_eq!(dialogs[1][4], "--button=Shut Down:0");
    assert_eq!(
        dialogs[2],
        vec!["xmessage", "-buttons", "Cancel:1,Shut Down:0", "-default", "Cancel", "Are you sure you want to shut down PiForma?"]
    );

    let (state, action) = dialog_start(&dialogs);
    assert!(matches!(action, DialogAction::Show(0)));
    let (state, action) = dialog_step(&dialogs, state, 0, DialogOutcome::NotFound);
    assert!(matches!(action, DialogAction::Show(1)));
    let (state, action) = dialog_step(&dialogs, state, 1, DialogOutcome::Exited(Some(-3)));
    assert!(matches!(action, DialogAction::Show(2)));
    let (_, action) = dialog_step(&dialogs, state, 2, DialogOutcome::Exited(None));
    match action {
        DialogAction::Answer(Err(message)) => assert_eq!(
            message,
            "failed to show confirmation dialog: zenity not found; yad exited with status -3; xmessage terminated without an exit code"
        ),
        _ => panic!("no dialog could ask"),
    }
    let (state, _) = dialog_start(&dialogs);
    let (_, action) = dialog_step(&dialogs, state, 0, DialogOutcome::Exited(Some(1)));
    assert!(matches!(action, DialogAction::Answer(Ok(false))));
    let (state, _) = dialog_start(&dialogs);
    let (_, action) = dialog_step(&dialogs, state, 0, DialogOutcome::RunError("denied".to_string()));
    assert!(matches!(action, DialogAction::Answer(Err(ref m)) if m == "failed to run zenity: denied"));

    let cancelled = confirmed_power_commands(true, Ok(false)).expect_err("declined");
    assert_eq!(cancelled.error_kind, Some(ActionErrorKind::Cancelled));
    assert!(cancelled.into_legacy_result().is_ok());
    let failed = confirmed_power_commands(true, Err("no dialog".to_string())).expect_err("failed");
    assert_eq!(failed.error_kind, Some(ActionErrorKind::CommandFailed));
    assert_eq!(
        confirmed_power_commands(true, Ok(true)).expect("confirmed"),
        vec![vec!["systemctl", "reboot"], vec!["loginctl", "reboot"]]
    );
}

#[test]
fn confirmation_requests_by_name() {
    let unknown = confirmation_request("reboot").expect_err("unknown action");
    assert!(!unknown.success);
    assert_eq!(unknown.error_kind, Some(ActionErrorKind::InvalidRequest));
    assert_eq!(unknown.message.as_deref(), Some("unknown system action: reboot"));

    let other = confirmation_request("refresh").expect_err("not a power action");
    assert_eq!(other.error_kind, Some(ActionErrorKind::InvalidRequest));
    assert_eq!(
        other.message.as_deref(),
        Some("confirmation is only supported for restart and shut_down")
    );

    let (action, spec) = confirmation_request("restart").expect("restart is confirmed");
    assert_eq!(action, SystemActionId::Restart);
    assert_eq!(spec.title, "Restart");
    let (action, spec) = confirmation_request("shut_down").expect("shut down is confirmed");
    assert_eq!(action, SystemActionId::ShutDown);
    assert_eq!(spec.xmessage_buttons, "Cancel:1,Shut Down:0");
}

#[test]
fn clean_up_window_plan_and_result() {
    let failed = plan_clean_up_window(Err("invalid config.yaml: bad".to_string()), true)
        .expect_err("a broken configuration is refused");
    assert_eq!(failed.error_kind, Some(ActionErrorKind::InvalidRequest));
    assert_eq!(failed.message.as_deref(), Some("invalid config.yaml: bad"));

    let plan = plan_clean_up_window(Ok(PanelConfig::default()), false).expect("plan");
    assert!(!plan.send_refresh_key);
    assert_eq!(plan.command, None);

    let mut config = PanelConfig::default();
    config.actions.clean_up_window_command = "arrange-windows --tidy".to_string();
    let plan = plan_clean_up_window(Ok(config), true).expect("plan");
    assert!(plan.send_refresh_key);
    assert_eq!(plan.command.as_deref(), Some("arrange-windows --tidy"));

    let none = clean_up_window_result(None);
    assert!(none.success);
    assert_eq!(none.message, None);
    let failed = clean_up_window_result(Some(Err("sh: not found".to_string())));
    assert_eq!(failed.error_kind, Some(ActionErrorKind::CommandFailed));
    assert_eq!(failed.message.as_deref(), Some("sh: not found"));
    assert!(clean_up_window_result(Some(Ok(()))).success);
}
