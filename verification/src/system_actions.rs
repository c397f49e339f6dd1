//! Desktop and system actions of the Special menu, and the confirmation of
//! restart and shut down.
use vstd::prelude::*;

use crate::config::{ActionsConfig, PanelConfig};
use crate::launcher::{commands_view, join_spec, join_strings};
use crate::panel_actions::{
    command_result_view, failure_view, success_view, unit_result_view, ActionErrorKind, ActionResult,
};
use crate::text::{
    append_chars, append_str, chars_of, decimal_i32, signed_decimal, str_eq, string_from,
    string_of, trim, trim_chars,
};

verus! {

broadcast use vstd::seq_lib::group_seq_properties;

/// A desktop or system action of the Special menu.
#[derive(Clone, Copy, PartialEq, Eq, Structural, Debug)]
pub enum SystemActionId {
    SleepDisplay,
    ShowAllWindows,
    ShowDesktop,
    Refresh,
    CleanUpWindow,
    Restart,
    ShutDown,
    ShowClipboard,
}

/// The name under which the menus request a system action.
pub open spec fn system_action_name(a: SystemActionId) -> Seq<char> {
    match a {
        SystemActionId::SleepDisplay => "sleep_display"@,
        SystemActionId::ShowAllWindows => "show_all_windows"@,
        SystemActionId::ShowDesktop => "show_desktop"@,
        SystemActionId::Refresh => "refresh"@,
        SystemActionId::CleanUpWindow => "clean_up_window"@,
        SystemActionId::Restart => "restart"@,
        SystemActionId::ShutDown => "shut_down"@,
        SystemActionId::ShowClipboard => "show_clipboard"@,
    }
}

/// The system action with the given name; an error for an unknown name.
pub fn parse_system_action(action: &str) -> (r: Result<SystemActionId, String>)
    ensures
        match r {
            Ok(a) => action@ == system_action_name(a),
            Err(e) => (forall|a: SystemActionId| action@ != system_action_name(a)) && e@
                == "unknown system action: "@ + action@,
        },
{
    if str_eq(action, "sleep_display") {
        Ok(SystemActionId::SleepDisplay)
    } else if str_eq(action, "show_all_windows") {
        Ok(SystemActionId::ShowAllWindows)
    } else if str_eq(action, "show_desktop") {
        Ok(SystemActionId::ShowDesktop)
    } else if str_eq(action, "refresh") {
        Ok(SystemActionId::Refresh)
    } else if str_eq(action, "clean_up_window") {
        Ok(SystemActionId::CleanUpWindow)
    } else if str_eq(action, "restart") {
        Ok(SystemActionId::Restart)
    } else if str_eq(action, "shut_down") {
        Ok(SystemActionId::ShutDown)
    } else if str_eq(action, "show_clipboard") {
        Ok(SystemActionId::ShowClipboard)
    } else {
        let mut v = chars_of("unknown system action: ");
        append_str(&mut v, action);
        Err(string_of(&v))
    }
}

/// A command made of the given words.
fn command_of(words: &Vec<&'static str>) -> (r: Vec<String>)
    ensures
        r.deep_view() == words@.map_values(|w: &str| w@),
{
    let mut r: Vec<String> = Vec::new();
    for i in 0..words.len()
        invariant
            r.deep_view() == words@.take(i as int).map_values(|w: &str| w@),
    {
        let ghost before = r.deep_view();
        r.push(string_from(words[i]));
        assert(r.deep_view() =~= before.push(words@[i as int]@));
        assert(words@.take(i + 1) =~= words@.take(i as int).push(words@[i as int]));
    }
    assert(words@.take(words.len() as int) =~= words@);
    r
}

/// The commands that put the display to sleep, in the order they are tried.
pub open spec fn sleep_display_commands_spec() -> Seq<Seq<Seq<char>>> {
    seq![seq!["xset"@, "dpms"@, "force"@, "off"@], seq!["xset"@, "s"@, "activate"@]]
}

/// The commands that put the display to sleep.
pub fn sleep_display_commands() -> (r: Vec<Vec<String>>)
    ensures
        commands_view(r@) == sleep_display_commands_spec(),
{
    let mut a: Vec<&'static str> = Vec::new();
    a.push("xset");
    a.push("dpms");
    a.push("force");
    a.push("off");
    let mut b: Vec<&'static str> = Vec::new();
    b.push("xset");
    b.push("s");
    b.push("activate");
    let mut r: Vec<Vec<String>> = Vec::new();
    r.push(command_of(&a));
    r.push(command_of(&b));
    assert(commands_view(r@) =~~= sleep_display_commands_spec());
    r
}

/// The commands that restart (`true`) or power off (`false`) the machine, in
/// the order they are tried.
pub open spec fn power_commands_spec(restart: bool) -> Seq<Seq<Seq<char>>> {
    let verb = if restart {
        "reboot"@
    } else {
        "poweroff"@
    };
    seq![seq!["systemctl"@, verb], seq!["loginctl"@, verb]]
}

/// The commands that restart or power off the machine.
pub fn power_commands(restart: bool) -> (r: Vec<Vec<String>>)
    ensures
        commands_view(r@) == power_commands_spec(restart),
{
    let verb = if restart {
        "reboot"
    } else {
        "poweroff"
    };
    let mut a: Vec<String> = Vec::new();
    a.push(string_from("systemctl"));
    a.push(string_from(verb));
    let mut b: Vec<String> = Vec::new();
    b.push(string_from("loginctl"));
    b.push(string_from(verb));
    let mut r: Vec<Vec<String>> = Vec::new();
    r.push(a);
    r.push(b);
    assert(commands_view(r@) =~~= power_commands_spec(restart));
    r
}

/// What carrying out a system action runs.
#[derive(Debug, Clone)]
pub enum SystemActionPlan {
    /// Start these commands in order until one starts.
    StartWithFallbacks(Vec<Vec<String>>),
    /// Hide the menus and show the window overview.
    ShowAllWindows,
    /// Hide the menus and toggle showing the desktop.
    ShowDesktop,
    /// Hide the menus and refresh the previous window.
    Refresh,
    /// Hide the menus and clean up the previous window.
    CleanUpWindow,
    /// Show the clipboard contents.
    ShowClipboard,
    /// Run these commands in order until one succeeds.
    RunWithFallbacks(Vec<Vec<String>>),
    /// Refuse the request with this result.
    Refuse(ActionResult),
}

/// What carrying out `action` runs; restart and shut down run only when
/// `confirmed`, and are refused as invalid requests otherwise.
pub fn plan_system_action(action: SystemActionId, confirmed: bool) -> (r: SystemActionPlan)
    ensures
        match action {
            SystemActionId::SleepDisplay => (r matches SystemActionPlan::StartWithFallbacks(c)
                && commands_view(c@) == sleep_display_commands_spec()),
            SystemActionId::ShowAllWindows => r is ShowAllWindows,
            SystemActionId::ShowDesktop => r is ShowDesktop,
            SystemActionId::Refresh => r is Refresh,
            SystemActionId::CleanUpWindow => r is CleanUpWindow,
            SystemActionId::ShowClipboard => r is ShowClipboard,
            SystemActionId::Restart => if confirmed {
                r matches SystemActionPlan::RunWithFallbacks(c) && commands_view(c@)
                    == power_commands_spec(true)
            } else {
                r matches SystemActionPlan::Refuse(f) && f@ == failure_view(
                    ActionErrorKind::InvalidRequest,
                    "restart requires confirmation"@,
                )
            },
            SystemActionId::ShutDown => if confirmed {
                r matches SystemActionPlan::RunWithFallbacks(c) && commands_view(c@)
                    == power_commands_spec(false)
            } else {
                r matches SystemActionPlan::Refuse(f) && f@ == failure_view(
                    ActionErrorKind::InvalidRequest,
                    "shutdown requires confirmation"@,
                )
            },
        },
{
    match action {
        SystemActionId::SleepDisplay => SystemActionPlan::StartWithFallbacks(
            sleep_display_commands(),
        ),
        SystemActionId::ShowAllWindows => SystemActionPlan::ShowAllWindows,
        SystemActionId::ShowDesktop => SystemActionPlan::ShowDesktop,
        SystemActionId::Refresh => SystemActionPlan::Refresh,
        SystemActionId::CleanUpWindow => SystemActionPlan::CleanUpWindow,
        SystemActionId::ShowClipboard => SystemActionPlan::ShowClipboard,
        SystemActionId::Restart => if confirmed {
            SystemActionPlan::RunWithFallbacks(power_commands(true))
        } else {
            SystemActionPlan::Refuse(
                ActionResult::failure(
                    ActionErrorKind::InvalidRequest,
                    "restart requires confirmation",
                ),
            )
        },
        SystemActionId::ShutDown => if confirmed {
            SystemActionPlan::RunWithFallbacks(power_commands(false))
        } else {
            SystemActionPlan::Refuse(
                ActionResult::failure(
                    ActionErrorKind::InvalidRequest,
                    "shutdown requires confirmation",
                ),
            )
        },
    }
}

/// The program and arguments that refresh the previous window: the F5 key when
/// that window could be activated, `xrefresh` otherwise.
pub fn refresh_command(activated: bool) -> (r: (&'static str, Vec<String>))
    ensures
        activated ==> r.0@ == "xdotool"@ && r.1.deep_view() == seq!["key"@, "F5"@],
        !activated ==> r.0@ == "xrefresh"@ && r.1.deep_view() == Seq::<Seq<char>>::empty(),
{
    let mut args: Vec<String> = Vec::new();
    if activated {
        args.push(string_from("key"));
        args.push(string_from("F5"));
        assert(args.deep_view() =~= seq!["key"@, "F5"@]);
        ("xdotool", args)
    } else {
        assert(args.deep_view() =~= Seq::<Seq<char>>::empty());
        ("xrefresh", args)
    }
}

/// The shell command that Clean Up Window runs: the configured one, unless it
/// is blank.
pub fn clean_up_window_command(actions: &ActionsConfig) -> (r: Option<String>)
    ensures
        trim(actions.clean_up_window_command@).len() == 0 ==> r is None,
        trim(actions.clean_up_window_command@).len() > 0 ==> (r matches Some(c) && c@
            == actions.clean_up_window_command@),
{
    let v = chars_of(actions.clean_up_window_command.as_str());
    let t = trim_chars(&v);
    if t.len() == 0 {
        None
    } else {
        Some(actions.clean_up_window_command.clone())
    }
}

/// What Clean Up Window does once the menus are hidden and the previous window
/// has been reactivated, when one is remembered.
#[derive(Debug, Clone)]
pub struct CleanUpPlan {
    /// Send F5 to that window first (`xdotool key F5`), whatever it reports.
    pub send_refresh_key: bool,
    /// The shell command to start then, if one is configured.
    pub command: Option<String>,
}

/// The plan of Clean Up Window for the loaded configuration `config`, when
/// `xdotool` is installed or not: a configuration that did not load makes the
/// request invalid; otherwise F5 is sent when `xdotool` is there, and the
/// configured command, unless it is blank, is started.
pub fn plan_clean_up_window(config: Result<PanelConfig, String>, has_xdotool: bool) -> (r: Result<
    CleanUpPlan,
    ActionResult,
>)
    ensures
        match config {
            Err(e) => (r matches Err(f) && f@ == failure_view(ActionErrorKind::InvalidRequest, e@)),
            Ok(c) => (r matches Ok(p) && p.send_refresh_key == has_xdotool && (trim(
                c.actions.clean_up_window_command@,
            ).len() == 0 ==> p.command is None) && (trim(c.actions.clean_up_window_command@).len()
                > 0 ==> (p.command matches Some(x) && x@ == c.actions.clean_up_window_command@))),
        },
{
    match config {
        Err(e) => Err(ActionResult::failure(ActionErrorKind::InvalidRequest, e.as_str())),
        Ok(c) => Ok(
            CleanUpPlan {
                send_refresh_key: has_xdotool,
                command: clean_up_window_command(&c.actions),
            },
        ),
    }
}

/// The result of Clean Up Window: a success when no command was configured,
/// otherwise the outcome of starting the command.
pub fn clean_up_window_result(started: Option<Result<(), String>>) -> (r: ActionResult)
    ensures
        match started {
            None => r@ == success_view(None),
            Some(x) => r@ == command_result_view(unit_result_view(x)),
        },
{
    match started {
        None => ActionResult::success(None),
        Some(x) => ActionResult::from_command_result(x),
    }
}

/// The shell script that shows the clipboard's text in a dialog.
pub const CLIPBOARD_SCRIPT: &'static str = "
set -eu
tmp=\"${TMPDIR:-/tmp}/piforma-clipboard-$$.txt\"
trap 'rm -f \"$tmp\"' EXIT
if command -v xclip >/dev/null 2>&1; then
  xclip -selection clipboard -o >\"$tmp\" 2>/dev/null || printf '%s\\n' 'Clipboard is empty or does not contain text.' >\"$tmp\"
elif command -v xsel >/dev/null 2>&1; then
  xsel --clipboard --output >\"$tmp\" 2>/dev/null || printf '%s\\n' 'Clipboard is empty or does not contain text.' >\"$tmp\"
elif command -v wl-paste >/dev/null 2>&1; then
  wl-paste --no-newline >\"$tmp\" 2>/dev/null || printf '%s\\n' 'Clipboard is empty or does not contain text.' >\"$tmp\"
else
  printf '%s\\n' 'No clipboard reader found. Install xclip, xsel, or wl-clipboard.' >\"$tmp\"
fi
if [ ! -s \"$tmp\" ]; then
  printf '%s\\n' 'Clipboard is empty or does not contain text.' >\"$tmp\"
fi
if command -v zenity >/dev/null 2>&1; then
  exec zenity --text-info --title='Clipboard' --filename=\"$tmp\"
elif command -v yad >/dev/null 2>&1; then
  exec yad --text-info --title='Clipboard' --filename=\"$tmp\"
elif command -v xmessage >/dev/null 2>&1; then
  exec xmessage -file \"$tmp\"
else
  exit 127
fi
";

/// The shell command that Show Clipboard runs, detached.
pub fn show_clipboard() -> (r: String)
    ensures
        r@ == CLIPBOARD_SCRIPT@,
{
    string_from(CLIPBOARD_SCRIPT)
}

// ---------------------------------------------------------------------------
// Confirmation
// ---------------------------------------------------------------------------

/// The texts of a confirmation dialog.
#[derive(Debug, Clone)]
pub struct ConfirmationSpec {
    pub title: &'static str,
    pub text: &'static str,
    pub ok_label: &'static str,
    pub xmessage_buttons: &'static str,
}

/// The dialog that confirms restarting (`true`) or shutting down (`false`):
/// title, question, confirming button and `xmessage` buttons.
pub open spec fn confirmation_texts(restart: bool) -> (Seq<char>, Seq<char>, Seq<char>, Seq<char>) {
    if restart {
        (
            "Restart"@,
            "Are you sure you want to restart PiForma?"@,
            "Restart"@,
            "Cancel:1,Restart:0"@,
        )
    } else {
        (
            "Shut Down"@,
            "Are you sure you want to shut down PiForma?"@,
            "Shut Down"@,
            "Cancel:1,Shut Down:0"@,
        )
    }
}

/// The model of a confirmation dialog's texts.
pub open spec fn confirmation_view(c: ConfirmationSpec) -> (Seq<char>, Seq<char>, Seq<char>, Seq<char>) {
    (c.title@, c.text@, c.ok_label@, c.xmessage_buttons@)
}

/// The dialog that confirms a system action; only restart and shut down are
/// confirmed, any other action is an invalid request.
pub fn confirmation_for(action: SystemActionId) -> (r: Result<ConfirmationSpec, ActionResult>)
    ensures
        action == SystemActionId::Restart ==> (r matches Ok(c) && confirmation_view(c)
            == confirmation_texts(true)),
        action == SystemActionId::ShutDown ==> (r matches Ok(c) && confirmation_view(c)
            == confirmation_texts(false)),
        action != SystemActionId::Restart && action != SystemActionId::ShutDown ==> (r matches Err(
            f,
        ) && f@ == failure_view(
            ActionErrorKind::InvalidRequest,
            "confirmation is only supported for restart and shut_down"@,
        )),
{
    match action {
        SystemActionId::Restart => Ok(
            ConfirmationSpec {
                title: "Restart",
                text: "Are you sure you want to restart PiForma?",
                ok_label: "Restart",
                xmessage_buttons: "Cancel:1,Restart:0",
            },
        ),
        SystemActionId::ShutDown => Ok(
            ConfirmationSpec {
                title: "Shut Down",
                text: "Are you sure you want to shut down PiForma?",
                ok_label: "Shut Down",
                xmessage_buttons: "Cancel:1,Shut Down:0",
            },
        ),
        _ => Err(
            ActionResult::failure(
                ActionErrorKind::InvalidRequest,
                "confirmation is only supported for restart and shut_down",
            ),
        ),
    }
}

/// The system action named `action` and the dialog that confirms it: an
/// unknown name is an invalid request (`unknown system action: <name>`), and so
/// is any action but restart and shut down.
pub fn confirmation_request(action: &str) -> (r: Result<(SystemActionId, ConfirmationSpec), ActionResult>)
    ensures
        (forall|a: SystemActionId| action@ != system_action_name(a)) ==> (r matches Err(f) && f@
            == failure_view(ActionErrorKind::InvalidRequest, "unknown system action: "@ + action@)),
        forall|a: SystemActionId|
            action@ == #[trigger] system_action_name(a) ==> match a {
                SystemActionId::Restart => (r matches Ok((b, c)) && b == a && confirmation_view(c)
                    == confirmation_texts(true)),
                SystemActionId::ShutDown => (r matches Ok((b, c)) && b == a && confirmation_view(c)
                    == confirmation_texts(false)),
                _ => (r matches Err(f) && f@ == failure_view(
                    ActionErrorKind::InvalidRequest,
                    "confirmation is only supported for restart and shut_down"@,
                )),
            },
{
    match parse_system_action(action) {
        Ok(b) => {
            proof {
                assert forall|a: SystemActionId| action@ == #[trigger] system_action_name(a) implies a
                    == b by {
                    if a != b {
                        lemma_system_action_names_distinct(a, b);
                    }
                }
            }
            match confirmation_for(b) {
                Ok(c) => Ok((b, c)),
                Err(f) => Err(f),
            }
        },
        Err(e) => Err(ActionResult::failure(ActionErrorKind::InvalidRequest, e.as_str())),
    }
}

/// The dialog programs that ask for a confirmation, with their arguments, in
/// the order they are tried: `zenity`, `yad`, then `xmessage`.
pub open spec fn confirmation_dialogs_spec(
    title: Seq<char>,
    text: Seq<char>,
    ok_label: Seq<char>,
    buttons: Seq<char>,
) -> Seq<Seq<Seq<char>>> {
    seq![
        seq![
            "zenity"@,
            "--question"@,
            "--title="@ + title,
            "--text="@ + text,
            "--ok-label="@ + ok_label,
            "--cancel-label=Cancel"@,
        ],
        seq![
            "yad"@,
            "--question"@,
            "--title="@ + title,
            "--text="@ + text,
            "--button="@ + ok_label + ":0"@,
            "--button=Cancel:1"@,
        ],
        seq!["xmessage"@, "-buttons"@, buttons, "-default"@, "Cancel"@, text],
    ]
}

/// `prefix` followed by `value` and `suffix`.
fn framed(prefix: &str, value: &str, suffix: &str) -> (r: String)
    ensures
        r@ == prefix@ + value@ + suffix@,
{
    let mut v = chars_of(prefix);
    append_str(&mut v, value);
    append_str(&mut v, suffix);
    string_of(&v)
}

/// The dialogs that ask for the confirmation `spec`.
pub fn confirmation_dialogs(spec: &ConfirmationSpec) -> (r: Vec<Vec<String>>)
    ensures
        commands_view(r@) == confirmation_dialogs_spec(
            spec.title@,
            spec.text@,
            spec.ok_label@,
            spec.xmessage_buttons@,
        ),
{
    let mut zenity: Vec<String> = Vec::new();
    zenity.push(string_from("zenity"));
    zenity.push(string_from("--question"));
    zenity.push(framed("--title=", spec.title, ""));
    zenity.push(framed("--text=", spec.text, ""));
    zenity.push(framed("--ok-label=", spec.ok_label, ""));
    zenity.push(string_from("--cancel-label=Cancel"));
    let mut yad: Vec<String> = Vec::new();
    yad.push(string_from("yad"));
    yad.push(string_from("--question"));
    yad.push(framed("--title=", spec.title, ""));
    yad.push(framed("--text=", spec.text, ""));
    yad.push(framed("--button=", spec.ok_label, ":0"));
    yad.push(string_from("--button=Cancel:1"));
    let mut xmessage: Vec<String> = Vec::new();
    xmessage.push(string_from("xmessage"));
    xmessage.push(string_from("-buttons"));
    xmessage.push(string_from(spec.xmessage_buttons));
    xmessage.push(string_from("-default"));
    xmessage.push(string_from("Cancel"));
    xmessage.push(string_from(spec.text));
    proof {
        assert(""@ =~= Seq::<char>::empty()) by {
            reveal_strlit("");
        }
    }
    let mut r: Vec<Vec<String>> = Vec::new();
    r.push(zenity);
    r.push(yad);
    r.push(xmessage);
    assert(commands_view(r@) =~~= confirmation_dialogs_spec(
        spec.title@,
        spec.text@,
        spec.ok_label@,
        spec.xmessage_buttons@,
    ));
    r
}

/// What became of showing one confirmation dialog.
#[derive(Debug, Clone)]
pub enum DialogOutcome {
    /// The dialog program is not installed.
    NotFound,
    /// The dialog program could not be run; the text is the system's error.
    RunError(String),
    /// The dialog ended with this exit code, or without one.
    Exited(Option<i32>),
}

/// What asking for a confirmation does next.
#[derive(Debug)]
pub enum DialogAction {
    /// Show the dialog at this index.
    Show(usize),
    /// Stop with this answer: whether the user confirmed, or why no dialog could
    /// ask.
    Answer(Result<bool, String>),
}

/// The model of what asking for a confirmation does next: the dialog to show,
/// `-1` with an answer, or `-2` with an error message.
pub open spec fn dialog_action_view(a: DialogAction) -> (int, bool, Seq<char>) {
    match a {
        DialogAction::Show(i) => (i as int, false, seq![]),
        DialogAction::Answer(Ok(b)) => (-1, b, seq![]),
        DialogAction::Answer(Err(e)) => (-2, false, e@),
    }
}

/// The failure when no dialog could ask: the reasons, joined by `; `.
pub open spec fn dialogs_failed_message(errors: Seq<Seq<char>>) -> Seq<char> {
    "failed to show confirmation dialog: "@ + join_spec(errors, "; "@)
}

/// The action after the failures `errors` when the next dialog is `next`.
pub open spec fn dialog_next(count: int, next: int, errors: Seq<Seq<char>>) -> (int, bool, Seq<char>) {
    if next < count {
        (next, false, seq![])
    } else {
        (-2, false, dialogs_failed_message(errors))
    }
}

/// The reasons recorded so far for dialogs that could not ask.
#[derive(Debug, Clone)]
pub struct DialogState {
    pub errors: Vec<String>,
}

/// Starts asking for a confirmation with the dialogs `dialogs`, which are never
/// empty.
pub fn dialog_start(dialogs: &Vec<Vec<String>>) -> (r: (DialogState, DialogAction))
    ensures
        r.0.errors.deep_view() == Seq::<Seq<char>>::empty(),
        dialog_action_view(r.1) == dialog_next(dialogs@.len() as int, 0, seq![]),
{
    let errors: Vec<String> = Vec::new();
    assert(errors.deep_view() =~= Seq::<Seq<char>>::empty());
    if dialogs.len() > 0 {
        (DialogState { errors }, DialogAction::Show(0))
    } else {
        let m = dialogs_failed(&errors);
        (DialogState { errors }, DialogAction::Answer(Err(m)))
    }
}

/// The failure when no dialog could ask.
fn dialogs_failed(errors: &Vec<String>) -> (r: String)
    ensures
        r@ == dialogs_failed_message(errors.deep_view()),
{
    let joined = join_strings(errors, "; ");
    let mut v = chars_of("failed to show confirmation dialog: ");
    append_str(&mut v, joined.as_str());
    string_of(&v)
}

/// The reason recorded when the dialog `program` could not ask.
pub open spec fn dialog_error(program: Seq<char>, code: Option<i32>) -> Seq<char> {
    match code {
        Some(c) => program + " exited with status "@ + signed_decimal(c as int),
        None => program + " terminated without an exit code"@,
    }
}

/// Takes what became of the dialog at `shown`: exit code 0 confirms, 1 declines,
/// a dialog that could not be run stops asking with the error `failed to run
/// <program>: <error>`; a missing dialog or another ending is recorded and the
/// next dialog is shown, or, after the last, asking fails with the recorded
/// reasons.
pub fn dialog_step(
    dialogs: &Vec<Vec<String>>,
    state: DialogState,
    shown: usize,
    outcome: DialogOutcome,
) -> (r: (DialogState, DialogAction))
    requires
        shown < dialogs.len(),
        dialogs@[shown as int].len() > 0,
    ensures
        ({
            let program = dialogs@[shown as int]@[0]@;
            let count = dialogs@.len() as int;
            let before = state.errors.deep_view();
            match outcome {
                DialogOutcome::Exited(Some(0)) => dialog_action_view(r.1) == (-1int, true, Seq::<
                    char,
                >::empty()),
                DialogOutcome::Exited(Some(1)) => dialog_action_view(r.1) == (-1int, false, Seq::<
                    char,
                >::empty()),
                DialogOutcome::RunError(e) => dialog_action_view(r.1) == (
                    -2int,
                    false,
                    "failed to run "@ + program + ": "@ + e@,
                ),
                DialogOutcome::NotFound => {
                    let errors = before.push(program + " not found"@);
                    r.0.errors.deep_view() == errors && dialog_action_view(r.1) == dialog_next(
                        count,
                        shown + 1,
                        errors,
                    )
                },
                DialogOutcome::Exited(code) => {
                    let errors = before.push(dialog_error(program, code));
                    r.0.errors.deep_view() == errors && dialog_action_view(r.1) == dialog_next(
                        count,
                        shown + 1,
                        errors,
                    )
                },
            }
        }),
{
    let program = dialogs[shown][0].as_str();
    let reason = match outcome {
        DialogOutcome::Exited(Some(0)) => {
            return (state, DialogAction::Answer(Ok(true)));
        },
        DialogOutcome::Exited(Some(1)) => {
            return (state, DialogAction::Answer(Ok(false)));
        },
        DialogOutcome::RunError(e) => {
            let mut v = chars_of("failed to run ");
            append_str(&mut v, program);
            append_str(&mut v, ": ");
            append_str(&mut v, e.as_str());
            return (state, DialogAction::Answer(Err(string_of(&v))));
        },
        DialogOutcome::NotFound => framed("", program, " not found"),
        DialogOutcome::Exited(Some(code)) => {
            let mut v = chars_of(program);
            append_str(&mut v, " exited with status ");
            let d = decimal_i32(code);
            append_chars(&mut v, &d);
            string_of(&v)
        },
        DialogOutcome::Exited(None) => framed("", program, " terminated without an exit code"),
    };
    proof {
        assert(""@ =~= Seq::<char>::empty()) by {
            reveal_strlit("");
        }
    }
    let mut errors = state.errors;
    let ghost before = errors.deep_view();
    let ghost rv = reason@;
    errors.push(reason);
    assert(errors.deep_view() =~= before.push(rv));
    if shown + 1 < dialogs.len() {
        (DialogState { errors }, DialogAction::Show(shown + 1))
    } else {
        let m = dialogs_failed(&errors);
        (DialogState { errors }, DialogAction::Answer(Err(m)))
    }
}

/// The power commands to run once the user has answered the confirmation of
/// restarting (`true`) or shutting down (`false`): a dialog failure is a command
/// failure, a declined dialog a cancellation.
pub fn confirmed_power_commands(restart: bool, answer: Result<bool, String>) -> (r: Result<
    Vec<Vec<String>>,
    ActionResult,
>)
    ensures
        match answer {
            Ok(true) => (r matches Ok(c) && commands_view(c@) == power_commands_spec(restart)),
            Ok(false) => (r matches Err(f) && f@ == failure_view(
                ActionErrorKind::Cancelled,
                "action cancelled"@,
            )),
            Err(e) => (r matches Err(f) && f@ == failure_view(ActionErrorKind::CommandFailed, e@)),
        },
{
    match answer {
        Ok(true) => Ok(power_commands(restart)),
        Ok(false) => Err(ActionResult::failure(ActionErrorKind::Cancelled, "action cancelled")),
        Err(e) => Err(ActionResult::failure(ActionErrorKind::CommandFailed, e.as_str())),
    }
}

/// Different system actions have different names, so the name of an action
/// parses back to that action.
pub proof fn lemma_system_action_names_distinct(a: SystemActionId, b: SystemActionId)
    requires
        a != b,
    ensures
        system_action_name(a) != system_action_name(b),
{
    reveal_strlit("sleep_display");
    reveal_strlit("show_all_windows");
    reveal_strlit("show_desktop");
    reveal_strlit("refresh");
    reveal_strlit("clean_up_window");
    reveal_strlit("restart");
    reveal_strlit("shut_down");
    reveal_strlit("show_clipboard");
    let x = system_action_name(a);
    let y = system_action_name(b);
    if x == y {
        assert(x.len() == y.len());
        assert(x[0] == y[0]);
        assert(x[1] == y[1]);
        assert(x[5] == y[5]);
    }
}

/// Every confirmation asks about its own action and lets Cancel decline: the
/// confirming button is named after the action, the question names it, and in
/// the `xmessage` fallback Cancel exits with 1 and the confirming button with 0,
/// as `yad`'s buttons do; these are the codes that `dialog_step` reads as
/// declined and confirmed, and Cancel is the default.
pub proof fn lemma_confirmation_buttons(restart: bool)
    ensures
        ({
            let (title, text, ok, buttons) = confirmation_texts(restart);
            let dialogs = confirmation_dialogs_spec(title, text, ok, buttons);
            &&& ok == (if restart {
                "Restart"@
            } else {
                "Shut Down"@
            })
            &&& title == ok
            &&& text == "Are you sure you want to "@ + (if restart {
                "restart"@
            } else {
                "shut down"@
            }) + " PiForma?"@
            &&& buttons == "Cancel:1,"@ + ok + ":0"@
            &&& dialogs[0][4] == "--ok-label="@ + ok
            &&& dialogs[0][5] == "--cancel-label=Cancel"@
            &&& dialogs[1][4] == "--button="@ + ok + ":0"@
            &&& dialogs[1][5] == "--button=Cancel:1"@
            &&& dialogs[2][4] == "Cancel"@
        }),
{
    reveal_strlit("Restart");
    reveal_strlit("Shut Down");
    reveal_strlit("restart");
    reveal_strlit("shut down");
    reveal_strlit("Are you sure you want to ");
    reveal_strlit(" PiForma?");
    reveal_strlit("Are you sure you want to restart PiForma?");
    reveal_strlit("Are you sure you want to shut down PiForma?");
    reveal_strlit("Cancel:1,");
    reveal_strlit(":0");
    reveal_strlit("Cancel:1,Restart:0");
    reveal_strlit("Cancel:1,Shut Down:0");
    let (title, text, ok, buttons) = confirmation_texts(restart);
    if restart {
        assert(text =~= "Are you sure you want to "@ + "restart"@ + " PiForma?"@);
        assert(buttons =~= "Cancel:1,"@ + ok + ":0"@);
    } else {
        assert(text =~= "Are you sure you want to "@ + "shut down"@ + " PiForma?"@);
        assert(buttons =~= "Cancel:1,"@ + ok + ":0"@);
    }
}

/// A system action requested by its name is the action it names, by its
/// stable identifier: `sleep_display`, `show_all_windows`, `show_desktop`,
/// `refresh`, `clean_up_window`, `restart`, `shut_down`, `show_clipboard`.
pub proof fn lemma_system_action_identifiers(a: SystemActionId)
    ensures
        (system_action_name(a) == "sleep_display"@) == (a == SystemActionId::SleepDisplay),
        (system_action_name(a) == "show_all_windows"@) == (a == SystemActionId::ShowAllWindows),
        (system_action_name(a) == "show_desktop"@) == (a == SystemActionId::ShowDesktop),
        (system_action_name(a) == "refresh"@) == (a == SystemActionId::Refresh),
        (system_action_name(a) == "clean_up_window"@) == (a == SystemActionId::CleanUpWindow),
        (system_action_name(a) == "restart"@) == (a == SystemActionId::Restart),
        (system_action_name(a) == "shut_down"@) == (a == SystemActionId::ShutDown),
        (system_action_name(a) == "show_clipboard"@) == (a == SystemActionId::ShowClipboard),
{
    reveal_strlit("sleep_display");
    reveal_strlit("show_all_windows");
    reveal_strlit("show_desktop");
    reveal_strlit("refresh");
    reveal_strlit("clean_up_window");
    reveal_strlit("restart");
    reveal_strlit("shut_down");
    reveal_strlit("show_clipboard");
    assert("show_all_windows"@.len() != "sleep_display"@.len());
    assert("show_all_windows"@ != "sleep_display"@);
    assert("show_desktop"@.len() != "sleep_display"@.len());
    assert("show_desktop"@ != "sleep_display"@);
    assert("show_desktop"@.len() != "show_all_windows"@.len());
    assert("show_desktop"@ != "show_all_windows"@);
    assert("refresh"@.len() != "sleep_display"@.len());
    assert("refresh"@ != "sleep_display"@);
    assert("refresh"@.len() != "show_all_windows"@.len());
    assert("refresh"@ != "show_all_windows"@);
    assert("refresh"@.len() != "show_desktop"@.len());
    assert("refresh"@ != "show_desktop"@);
    assert("clean_up_window"@.len() != "sleep_display"@.len());
    assert("clean_up_window"@ != "sleep_display"@);
    assert("clean_up_window"@.len() != "show_all_windows"@.len());
    assert("clean_up_window"@ != "show_all_windows"@);
    assert("clean_up_window"@.len() != "show_desktop"@.len());
    assert("clean_up_window"@ != "show_desktop"@);
    assert("clean_up_window"@.len() != "refresh"@.len());
    assert("clean_up_window"@ != "refresh"@);
    assert("restart"@.len() != "sleep_display"@.len());
    assert("restart"@ != "sleep_display"@);
    assert("restart"@.len() != "show_all_windows"@.len());
    assert("restart"@ != "show_all_windows"@);
    assert("restart"@.len() != "show_desktop"@.len());
    assert("restart"@ != "show_desktop"@);
    assert("restart"@[2] != "refresh"@[2]);
    assert("restart"@ != "refresh"@);
    assert("restart"@.len() != "clean_up_window"@.len());
    assert("restart"@ != "clean_up_window"@);
    assert("shut_down"@.len() != "sleep_display"@.len());
    assert("shut_down"@ != "sleep_display"@);
    assert("shut_down"@.len() != "show_all_windows"@.len());
    assert("shut_down"@ != "show_all_windows"@);
    assert("shut_down"@.len() != "show_desktop"@.len());
    assert("shut_down"@ != "show_desktop"@);
    assert("shut_down"@.len() != "refresh"@.len());
    assert("shut_down"@ != "refresh"@);
    assert("shut_down"@.len() != "clean_up_window"@.len());
    assert("shut_down"@ != "clean_up_window"@);
    assert("shut_down"@.len() != "restart"@.len());
    assert("shut_down"@ != "restart"@);
    assert("show_clipboard"@.len() != "sleep_display"@.len());
    assert("show_clipboard"@ != "sleep_display"@);
    assert("show_clipboard"@.len() != "show_all_windows"@.len());
    assert("show_clipboard"@ != "show_all_windows"@);
    assert("show_clipboard"@.len() != "show_desktop"@.len());
    assert("show_clipboard"@ != "show_desktop"@);
    assert("show_clipboard"@.len() != "refresh"@.len());
    assert("show_clipboard"@ != "refresh"@);
    assert("show_clipboard"@.len() != "clean_up_window"@.len());
    assert("show_clipboard"@ != "clean_up_window"@);
    assert("show_clipboard"@.len() != "restart"@.len());
    assert("show_clipboard"@ != "restart"@);
    assert("show_clipboard"@.len() != "shut_down"@.len());
    assert("show_clipboard"@ != "shut_down"@);
}

/// Restarting reboots and shutting down powers off, through `systemctl` and
/// then `loginctl`; the two never run each other's command.
pub proof fn lemma_power_commands_match_action(restart: bool)
    ensures
        ({
            let c = power_commands_spec(restart);
            &&& c.len() == 2
            &&& c[0] == seq!["systemctl"@, if restart { "reboot"@ } else { "poweroff"@ }]
            &&& c[1] == seq!["loginctl"@, if restart { "reboot"@ } else { "poweroff"@ }]
            &&& "reboot"@ != "poweroff"@
        }),
{
    reveal_strlit("reboot");
    reveal_strlit("poweroff");
    assert("reboot"@.len() != "poweroff"@.len());
}

} // verus!
