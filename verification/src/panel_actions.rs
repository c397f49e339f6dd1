//! Typed panel actions, their structured results, and what each action runs.
use vstd::prelude::*;

use crate::paths::path_join;
use crate::launcher::commands_view;
use crate::system_actions::{
    lemma_system_action_names_distinct, parse_system_action, system_action_name, SystemActionId,
};
use crate::text::{append_str, chars_of, str_eq, string_from, string_of};

verus! {

broadcast use vstd::seq_lib::group_seq_properties;

/// An action that the panel's menus request.
#[derive(Debug, Clone, PartialEq, Eq)]
pub enum PanelAction {
    ShowAbout,
    LaunchApp { exec_command: String, name: String },
    LaunchCalculator,
    OpenFolder { folder: FolderId },
    NewTerminalWindow,
    SendShortcut { action: ShortcutId },
    RunSystemAction { action: SystemActionId, confirmed: bool },
}

/// A folder that the File menu opens.
#[derive(Clone, Copy, PartialEq, Eq, Structural, Debug)]
pub enum FolderId {
    Applications,
    Home,
    Desktop,
}

/// An editing shortcut that the Edit menu sends to the previous window.
#[derive(Clone, Copy, PartialEq, Eq, Structural, Debug)]
pub enum ShortcutId {
    Undo,
    Cut,
    Copy,
    Paste,
    Clear,
    SelectAll,
}

/// The outcome of a panel action.
#[derive(Debug, Clone, PartialEq, Eq)]
pub struct ActionResult {
    pub success: bool,
    pub message: Option<String>,
    pub error_kind: Option<ActionErrorKind>,
}

/// Why a panel action did not succeed.
#[derive(Clone, Copy, PartialEq, Eq, Structural, Debug)]
pub enum ActionErrorKind {
    Unsupported,
    Cancelled,
    AuthorizationFailed,
    CommandFailed,
    TargetUnavailable,
    InvalidRequest,
}

/// The model of an action result.
pub struct ActionResultView {
    pub success: bool,
    pub message: Option<Seq<char>>,
    pub error_kind: Option<ActionErrorKind>,
}

impl View for ActionResult {
    type V = ActionResultView;

    open spec fn view(&self) -> ActionResultView {
        ActionResultView {
            success: self.success,
            message: crate::desktop_entries::opt_string_view(self.message),
            error_kind: self.error_kind,
        }
    }
}

/// A successful result with an optional message.
pub open spec fn success_view(message: Option<Seq<char>>) -> ActionResultView {
    ActionResultView { success: true, message, error_kind: None }
}

/// A failed result of the given kind with a message.
pub open spec fn failure_view(kind: ActionErrorKind, message: Seq<char>) -> ActionResultView {
    ActionResultView { success: false, message: Some(message), error_kind: Some(kind) }
}

/// The structured result of a command's outcome: success, or a command failure
/// that carries the command's error.
pub open spec fn command_result_view(result: Result<(), Seq<char>>) -> ActionResultView {
    match result {
        Ok(()) => success_view(None),
        Err(e) => failure_view(ActionErrorKind::CommandFailed, e),
    }
}

/// The outcome that the older command interface reports for a structured
/// result: success and cancellation are both success; any other failure is its
/// message, or a generic one when it has none.
pub open spec fn legacy_view(r: ActionResultView) -> Result<(), Seq<char>> {
    if r.success || r.error_kind == Some(ActionErrorKind::Cancelled) {
        Ok(())
    } else {
        match r.message {
            Some(m) => Err(m),
            None => Err("panel action failed"@),
        }
    }
}

/// The model of a command outcome.
pub open spec fn unit_result_view(r: Result<(), String>) -> Result<(), Seq<char>> {
    match r {
        Ok(()) => Ok(()),
        Err(e) => Err(e@),
    }
}

impl ActionResult {
    /// A successful result.
    pub fn success(message: Option<String>) -> (r: ActionResult)
        ensures
            r@ == success_view(crate::desktop_entries::opt_string_view(message)),
    {
        ActionResult { success: true, message, error_kind: None }
    }

    /// A failed result of the given kind.
    pub fn failure(kind: ActionErrorKind, message: &str) -> (r: ActionResult)
        ensures
            r@ == failure_view(kind, message@),
    {
        ActionResult { success: false, message: Some(string_from(message)), error_kind: Some(kind) }
    }

    /// The structured result of a command's outcome.
    pub fn from_command_result(result: Result<(), String>) -> (r: ActionResult)
        ensures
            r@ == command_result_view(unit_result_view(result)),
    {
        match result {
            Ok(()) => ActionResult::success(None),
            Err(err) => ActionResult::failure(ActionErrorKind::CommandFailed, err.as_str()),
        }
    }

    /// The outcome that the older command interface reports.
    pub fn into_legacy_result(self) -> (r: Result<(), String>)
        ensures
            unit_result_view(r) == legacy_view(self@),
    {
        let cancelled = match self.error_kind {
            Some(ActionErrorKind::Cancelled) => true,
            _ => false,
        };
        if self.success || cancelled {
            Ok(())
        } else {
            match self.message {
                Some(m) => Err(m),
                None => Err(string_from("panel action failed")),
            }
        }
    }
}

/// Reporting a command's outcome as a structured result and back through the
/// older interface gives the command's outcome again.
pub proof fn lemma_command_result_round_trip(result: Result<(), Seq<char>>)
    ensures
        legacy_view(command_result_view(result)) == result,
{
    match result {
        Ok(u) => {
            assert(u == ());
        },
        Err(e) => {},
    }
}

/// A cancelled action is a success for the older interface, and any other
/// failure reports its message there.
pub proof fn lemma_legacy_failure(kind: ActionErrorKind, message: Seq<char>)
    ensures
        kind == ActionErrorKind::Cancelled ==> legacy_view(failure_view(kind, message)) == Ok::<
            (),
            Seq<char>,
        >(()),
        kind != ActionErrorKind::Cancelled ==> legacy_view(failure_view(kind, message)) == Err::<
            (),
            Seq<char>,
        >(message),
{
}

// ---------------------------------------------------------------------------
// What the actions run
// ---------------------------------------------------------------------------

/// The key that `xdotool` sends for an editing shortcut.
pub open spec fn shortcut_key_spec(s: ShortcutId) -> Seq<char> {
    match s {
        ShortcutId::Undo => "ctrl+z"@,
        ShortcutId::Cut => "ctrl+x"@,
        ShortcutId::Copy => "ctrl+c"@,
        ShortcutId::Paste => "ctrl+v"@,
        ShortcutId::Clear => "Delete"@,
        ShortcutId::SelectAll => "ctrl+a"@,
    }
}

/// The key that `xdotool` sends for an editing shortcut.
pub fn shortcut_key(s: ShortcutId) -> (r: &'static str)
    ensures
        r@ == shortcut_key_spec(s),
{
    match s {
        ShortcutId::Undo => "ctrl+z",
        ShortcutId::Cut => "ctrl+x",
        ShortcutId::Copy => "ctrl+c",
        ShortcutId::Paste => "ctrl+v",
        ShortcutId::Clear => "Delete",
        ShortcutId::SelectAll => "ctrl+a",
    }
}

/// The name under which the menus request an editing shortcut.
pub open spec fn shortcut_name(s: ShortcutId) -> Seq<char> {
    match s {
        ShortcutId::Undo => "undo"@,
        ShortcutId::Cut => "cut"@,
        ShortcutId::Copy => "copy"@,
        ShortcutId::Paste => "paste"@,
        ShortcutId::Clear => "clear"@,
        ShortcutId::SelectAll => "select_all"@,
    }
}

/// The editing shortcut with the given name; an error for an unknown name.
pub fn shortcut_from_name(name: &str) -> (r: Result<ShortcutId, String>)
    ensures
        match r {
            Ok(s) => name@ == shortcut_name(s),
            Err(e) => (forall|s: ShortcutId| name@ != shortcut_name(s)) && e@
                == "unknown shortcut action: "@ + name@,
        },
{
    if str_eq(name, "undo") {
        Ok(ShortcutId::Undo)
    } else if str_eq(name, "cut") {
        Ok(ShortcutId::Cut)
    } else if str_eq(name, "copy") {
        Ok(ShortcutId::Copy)
    } else if str_eq(name, "paste") {
        Ok(ShortcutId::Paste)
    } else if str_eq(name, "clear") {
        Ok(ShortcutId::Clear)
    } else if str_eq(name, "select_all") {
        Ok(ShortcutId::SelectAll)
    } else {
        let mut v = chars_of("unknown shortcut action: ");
        append_str(&mut v, name);
        Err(string_of(&v))
    }
}

/// The name under which the menus request a folder.
pub open spec fn folder_name(f: FolderId) -> Seq<char> {
    match f {
        FolderId::Applications => "applications"@,
        FolderId::Home => "home"@,
        FolderId::Desktop => "desktop"@,
    }
}

/// The folder with the given name; an error for an unknown name.
pub fn folder_from_name(name: &str) -> (r: Result<FolderId, String>)
    ensures
        match r {
            Ok(f) => name@ == folder_name(f),
            Err(e) => (forall|f: FolderId| name@ != folder_name(f)) && e@ == "unknown folder: "@
                + name@,
        },
{
    if str_eq(name, "applications") {
        Ok(FolderId::Applications)
    } else if str_eq(name, "home") {
        Ok(FolderId::Home)
    } else if str_eq(name, "desktop") {
        Ok(FolderId::Desktop)
    } else {
        let mut v = chars_of("unknown folder: ");
        append_str(&mut v, name);
        Err(string_of(&v))
    }
}

/// The user's applications folder under the home directory `home`.
pub fn applications_folder(home: &str) -> (r: String)
    ensures
        r@ == path_join(home@, ".local/share/applications"@),
{
    let h = chars_of(home);
    let rest = chars_of(".local/share/applications");
    let joined = crate::paths::join_path(&h, &rest);
    string_of(&joined)
}

/// A list of single-program commands.
fn single_commands(programs: &Vec<&'static str>) -> (r: Vec<Vec<String>>)
    ensures
        commands_view(r@) == programs@.map_values(|p: &str| seq![p@]),
{
    let mut r: Vec<Vec<String>> = Vec::new();
    for i in 0..programs.len()
        invariant
            commands_view(r@) == programs@.take(i as int).map_values(|p: &str| seq![p@]),
    {
        let mut c: Vec<String> = Vec::new();
        c.push(string_from(programs[i]));
        assert(c.deep_view() =~= seq![programs@[i as int]@]);
        let ghost before = r@;
        r.push(c);
        assert(commands_view(r@) =~= commands_view(before).push(seq![programs@[i as int]@]));
        assert(programs@.take(i + 1) =~= programs@.take(i as int).push(programs@[i as int]));
    }
    assert(programs@.take(programs.len() as int) =~= programs@);
    r
}

/// The calculators that the Apple menu tries, in order.
pub open spec fn calculator_commands_spec() -> Seq<Seq<Seq<char>>> {
    seq![
        seq!["xcalc"@],
        seq!["galculator"@],
        seq!["gnome-calculator"@],
        seq!["mate-calc"@],
        seq!["kcalc"@],
    ]
}

/// The calculators that the Apple menu tries, in order.
pub fn calculator_commands() -> (r: Vec<Vec<String>>)
    ensures
        commands_view(r@) == calculator_commands_spec(),
{
    let mut p: Vec<&'static str> = Vec::new();
    p.push("xcalc");
    p.push("galculator");
    p.push("gnome-calculator");
    p.push("mate-calc");
    p.push("kcalc");
    let r = single_commands(&p);
    assert(commands_view(r@) =~= calculator_commands_spec());
    r
}

/// The terminals that the File menu tries, in order.
pub open spec fn terminal_commands_spec() -> Seq<Seq<Seq<char>>> {
    seq![
        seq!["x-terminal-emulator"@],
        seq!["lxterminal"@],
        seq!["xfce4-terminal"@],
        seq!["gnome-terminal"@],
        seq!["konsole"@],
        seq!["mate-terminal"@],
    ]
}

/// The terminals that the File menu tries, in order.
pub fn terminal_commands() -> (r: Vec<Vec<String>>)
    ensures
        commands_view(r@) == terminal_commands_spec(),
{
    let mut p: Vec<&'static str> = Vec::new();
    p.push("x-terminal-emulator");
    p.push("lxterminal");
    p.push("xfce4-terminal");
    p.push("gnome-terminal");
    p.push("konsole");
    p.push("mate-terminal");
    let r = single_commands(&p);
    assert(commands_view(r@) =~= terminal_commands_spec());
    r
}

/// The file managers that open a folder, in order.
pub open spec fn open_folder_commands_spec(target: Seq<char>) -> Seq<Seq<Seq<char>>> {
    seq![seq!["xdg-open"@, target], seq!["gio"@, "open"@, target], seq!["pcmanfm"@, target]]
}

/// Opening a folder: when its path could not be resolved, a failure that the
/// target is unavailable; otherwise the file managers to try on it.
pub fn open_folder(target: Result<String, String>) -> (r: Result<Vec<Vec<String>>, ActionResult>)
    ensures
        match target {
            Ok(t) => (r matches Ok(c) && commands_view(c@) == open_folder_commands_spec(t@)),
            Err(e) => (r matches Err(f) && f@ == failure_view(
                ActionErrorKind::TargetUnavailable,
                e@,
            )),
        },
{
    match target {
        Ok(t) => {
            let mut a: Vec<String> = Vec::new();
            a.push(string_from("xdg-open"));
            a.push(t.clone());
            let mut b: Vec<String> = Vec::new();
            b.push(string_from("gio"));
            b.push(string_from("open"));
            b.push(t.clone());
            let mut c: Vec<String> = Vec::new();
            c.push(string_from("pcmanfm"));
            c.push(t);
            let mut r: Vec<Vec<String>> = Vec::new();
            r.push(a);
            r.push(b);
            r.push(c);
            assert(commands_view(r@) =~~= open_folder_commands_spec(t@));
            Ok(r)
        },
        Err(e) => Err(ActionResult::failure(ActionErrorKind::TargetUnavailable, e.as_str())),
    }
}

/// What carrying out a panel action runs.
#[derive(Debug, Clone)]
pub enum ActionPlan {
    /// Launch the program with these arguments, detached.
    Detached { program: String, args: Vec<String> },
    /// Run this shell command, detached.
    DetachedShell(String),
    /// Try these commands in order, detached, until one starts.
    DetachedFallbacks(Vec<Vec<String>>),
    /// Open this folder.
    OpenFolder(FolderId),
    /// Send this key to the previously active window.
    SendKey(String),
    /// Carry out this system action.
    System { action: SystemActionId, confirmed: bool },
}

/// What carrying out `action` runs: the About box, the cleaned command line of an
/// application, the calculators or terminals to try, the folder to open, the
/// key of an editing shortcut, or the system action.
pub fn plan_panel_action(action: &PanelAction) -> (r: ActionPlan)
    ensures
        match *action {
            PanelAction::ShowAbout => (r matches ActionPlan::Detached { program, args }
                && program@ == "about-piforma"@ && args@.len() == 0),
            PanelAction::LaunchApp { exec_command, name } => (r matches ActionPlan::DetachedShell(c)
                && c@ == crate::launcher::clean_exec_spec(exec_command@, name@)),
            PanelAction::LaunchCalculator => (r matches ActionPlan::DetachedFallbacks(c)
                && commands_view(c@) == calculator_commands_spec()),
            PanelAction::OpenFolder { folder } => r == ActionPlan::OpenFolder(folder),
            PanelAction::NewTerminalWindow => (r matches ActionPlan::DetachedFallbacks(c)
                && commands_view(c@) == terminal_commands_spec()),
            PanelAction::SendShortcut { action } => (r matches ActionPlan::SendKey(k) && k@
                == shortcut_key_spec(action)),
            PanelAction::RunSystemAction { action, confirmed } => r == ActionPlan::System {
                action,
                confirmed,
            },
        },
{
    match action {
        PanelAction::ShowAbout => ActionPlan::Detached {
            program: string_from("about-piforma"),
            args: Vec::new(),
        },
        PanelAction::LaunchApp { exec_command, name } => ActionPlan::DetachedShell(
            crate::launcher::clean_exec_command(exec_command.as_str(), name.as_str()),
        ),
        PanelAction::LaunchCalculator => ActionPlan::DetachedFallbacks(calculator_commands()),
        PanelAction::OpenFolder { folder } => ActionPlan::OpenFolder(*folder),
        PanelAction::NewTerminalWindow => ActionPlan::DetachedFallbacks(terminal_commands()),
        PanelAction::SendShortcut { action } => ActionPlan::SendKey(
            string_from(shortcut_key(*action)),
        ),
        PanelAction::RunSystemAction { action, confirmed } => ActionPlan::System {
            action: *action,
            confirmed: *confirmed,
        },
    }
}

/// Different shortcuts and folders have different names, so a name parses back
/// to what it names.
pub proof fn lemma_request_names_distinct(a: ShortcutId, b: ShortcutId, f: FolderId, g: FolderId)
    ensures
        a != b ==> shortcut_name(a) != shortcut_name(b),
        f != g ==> folder_name(f) != folder_name(g),
{
    reveal_strlit("undo");
    reveal_strlit("cut");
    reveal_strlit("copy");
    reveal_strlit("paste");
    reveal_strlit("clear");
    reveal_strlit("select_all");
    reveal_strlit("applications");
    reveal_strlit("home");
    reveal_strlit("desktop");
    let x = shortcut_name(a);
    let y = shortcut_name(b);
    if a != b && x == y {
        assert(x.len() == y.len());
        assert(x[0] == y[0]);
        assert(x[1] == y[1]);
    }
    let u = folder_name(f);
    let v = folder_name(g);
    if f != g && u == v {
        assert(u.len() == v.len());
        assert(u[0] == v[0]);
    }
}

// ---------------------------------------------------------------------------
// Requests of the older commands
// ---------------------------------------------------------------------------

/// A panel action as the older commands request it: folders, shortcuts and
/// system actions by their names.
#[derive(Debug, Clone)]
pub enum PanelRequest {
    ShowAbout,
    LaunchApp { exec_command: String, name: String },
    LaunchCalculator,
    OpenFolder { folder: String },
    NewTerminalWindow,
    SendShortcut { action: String },
    RunSystemAction { action: String, confirmed: bool },
}

/// The model of a panel action: its texts as character sequences.
pub enum PanelActionView {
    ShowAbout,
    LaunchApp(Seq<char>, Seq<char>),
    LaunchCalculator,
    OpenFolder(FolderId),
    NewTerminalWindow,
    SendShortcut(ShortcutId),
    RunSystemAction(SystemActionId, bool),
}

impl View for PanelAction {
    type V = PanelActionView;

    open spec fn view(&self) -> PanelActionView {
        match *self {
            PanelAction::ShowAbout => PanelActionView::ShowAbout,
            PanelAction::LaunchApp { exec_command, name } => PanelActionView::LaunchApp(
                exec_command@,
                name@,
            ),
            PanelAction::LaunchCalculator => PanelActionView::LaunchCalculator,
            PanelAction::OpenFolder { folder } => PanelActionView::OpenFolder(folder),
            PanelAction::NewTerminalWindow => PanelActionView::NewTerminalWindow,
            PanelAction::SendShortcut { action } => PanelActionView::SendShortcut(action),
            PanelAction::RunSystemAction { action, confirmed } => PanelActionView::RunSystemAction(
                action,
                confirmed,
            ),
        }
    }
}

/// The model of a request of the older commands.
pub enum PanelRequestView {
    ShowAbout,
    LaunchApp(Seq<char>, Seq<char>),
    LaunchCalculator,
    OpenFolder(Seq<char>),
    NewTerminalWindow,
    SendShortcut(Seq<char>),
    RunSystemAction(Seq<char>, bool),
}

impl View for PanelRequest {
    type V = PanelRequestView;

    open spec fn view(&self) -> PanelRequestView {
        match *self {
            PanelRequest::ShowAbout => PanelRequestView::ShowAbout,
            PanelRequest::LaunchApp { exec_command, name } => PanelRequestView::LaunchApp(
                exec_command@,
                name@,
            ),
            PanelRequest::LaunchCalculator => PanelRequestView::LaunchCalculator,
            PanelRequest::OpenFolder { folder } => PanelRequestView::OpenFolder(folder@),
            PanelRequest::NewTerminalWindow => PanelRequestView::NewTerminalWindow,
            PanelRequest::SendShortcut { action } => PanelRequestView::SendShortcut(action@),
            PanelRequest::RunSystemAction { action, confirmed } => PanelRequestView::RunSystemAction(
                action@,
                confirmed,
            ),
        }
    }
}

/// The request with which the older commands ask for an action: each folder,
/// shortcut and system action by its name.
pub open spec fn request_for(a: PanelActionView) -> PanelRequestView {
    match a {
        PanelActionView::ShowAbout => PanelRequestView::ShowAbout,
        PanelActionView::LaunchApp(e, n) => PanelRequestView::LaunchApp(e, n),
        PanelActionView::LaunchCalculator => PanelRequestView::LaunchCalculator,
        PanelActionView::OpenFolder(f) => PanelRequestView::OpenFolder(folder_name(f)),
        PanelActionView::NewTerminalWindow => PanelRequestView::NewTerminalWindow,
        PanelActionView::SendShortcut(s) => PanelRequestView::SendShortcut(shortcut_name(s)),
        PanelActionView::RunSystemAction(a, c) => PanelRequestView::RunSystemAction(
            system_action_name(a),
            c,
        ),
    }
}

/// The action that a request asks for; an error naming what is unknown when a
/// folder, shortcut or system action name names none.
pub open spec fn action_of_request(r: PanelRequestView) -> Result<PanelActionView, Seq<char>> {
    match r {
        PanelRequestView::ShowAbout => Ok(PanelActionView::ShowAbout),
        PanelRequestView::LaunchApp(e, n) => Ok(PanelActionView::LaunchApp(e, n)),
        PanelRequestView::LaunchCalculator => Ok(PanelActionView::LaunchCalculator),
        PanelRequestView::OpenFolder(n) => if exists|f: FolderId| folder_name(f) == n {
            Ok(PanelActionView::OpenFolder(choose|f: FolderId| folder_name(f) == n))
        } else {
            Err("unknown folder: "@ + n)
        },
        PanelRequestView::NewTerminalWindow => Ok(PanelActionView::NewTerminalWindow),
        PanelRequestView::SendShortcut(n) => if exists|s: ShortcutId| shortcut_name(s) == n {
            Ok(PanelActionView::SendShortcut(choose|s: ShortcutId| shortcut_name(s) == n))
        } else {
            Err("unknown shortcut action: "@ + n)
        },
        PanelRequestView::RunSystemAction(n, c) => if exists|a: SystemActionId|
            system_action_name(a) == n {
            Ok(
                PanelActionView::RunSystemAction(
                    choose|a: SystemActionId| system_action_name(a) == n,
                    c,
                ),
            )
        } else {
            Err("unknown system action: "@ + n)
        },
    }
}

/// The model of the outcome of reading a request.
pub open spec fn request_result_view(r: Result<PanelAction, String>) -> Result<PanelActionView, Seq<char>> {
    match r {
        Ok(a) => Ok(a@),
        Err(e) => Err(e@),
    }
}

/// The action that a request of the older commands asks for.
pub fn action_from_request(request: PanelRequest) -> (r: Result<PanelAction, String>)
    ensures
        request_result_view(r) == action_of_request(request@),
{
    match request {
        PanelRequest::ShowAbout => Ok(PanelAction::ShowAbout),
        PanelRequest::LaunchApp { exec_command, name } => Ok(
            PanelAction::LaunchApp { exec_command, name },
        ),
        PanelRequest::LaunchCalculator => Ok(PanelAction::LaunchCalculator),
        PanelRequest::OpenFolder { folder } => match folder_from_name(folder.as_str()) {
            Ok(f) => {
                proof {
                    let g = choose|g: FolderId| folder_name(g) == folder@;
                    lemma_request_names_distinct(ShortcutId::Undo, ShortcutId::Undo, f, g);
                }
                Ok(PanelAction::OpenFolder { folder: f })
            },
            Err(e) => Err(e),
        },
        PanelRequest::NewTerminalWindow => Ok(PanelAction::NewTerminalWindow),
        PanelRequest::SendShortcut { action } => match shortcut_from_name(action.as_str()) {
            Ok(s) => {
                proof {
                    let t = choose|t: ShortcutId| shortcut_name(t) == action@;
                    lemma_request_names_distinct(s, t, FolderId::Home, FolderId::Home);
                }
                Ok(PanelAction::SendShortcut { action: s })
            },
            Err(e) => Err(e),
        },
        PanelRequest::RunSystemAction { action, confirmed } => match parse_system_action(
            action.as_str(),
        ) {
            Ok(a) => {
                proof {
                    let b = choose|b: SystemActionId| system_action_name(b) == action@;
                    if a != b {
                        lemma_system_action_names_distinct(a, b);
                    }
                }
                Ok(PanelAction::RunSystemAction { action: a, confirmed })
            },
            Err(e) => Err(e),
        },
    }
}

/// The older commands ask for every action by a request that reads back as that
/// very action, so each of them carries out what the typed action does.
pub proof fn lemma_request_for_action(a: PanelActionView)
    ensures
        action_of_request(request_for(a)) == Ok::<PanelActionView, Seq<char>>(a),
{
    match a {
        PanelActionView::OpenFolder(f) => {
            let g = choose|g: FolderId| folder_name(g) == folder_name(f);
            lemma_request_names_distinct(ShortcutId::Undo, ShortcutId::Undo, f, g);
        },
        PanelActionView::SendShortcut(s) => {
            let t = choose|t: ShortcutId| shortcut_name(t) == shortcut_name(s);
            lemma_request_names_distinct(s, t, FolderId::Home, FolderId::Home);
        },
        PanelActionView::RunSystemAction(x, c) => {
            let y = choose|y: SystemActionId| system_action_name(y) == system_action_name(x);
            if x != y {
                lemma_system_action_names_distinct(x, y);
            }
        },
        _ => {},
    }
}

/// An editing shortcut requested by its name sends the key of that editing
/// operation: `undo` sends ctrl+z, `cut` ctrl+x, `copy` ctrl+c, `paste` ctrl+v,
/// `clear` Delete and `select_all` ctrl+a; each name is the stable identifier of
/// the shortcut it names.
pub proof fn lemma_shortcut_names_send_their_keys(s: ShortcutId)
    ensures
        (shortcut_name(s) == "undo"@) == (s == ShortcutId::Undo),
        (shortcut_name(s) == "cut"@) == (s == ShortcutId::Cut),
        (shortcut_name(s) == "copy"@) == (s == ShortcutId::Copy),
        (shortcut_name(s) == "paste"@) == (s == ShortcutId::Paste),
        (shortcut_name(s) == "clear"@) == (s == ShortcutId::Clear),
        (shortcut_name(s) == "select_all"@) == (s == ShortcutId::SelectAll),
        shortcut_name(s) == "undo"@ ==> shortcut_key_spec(s) == "ctrl+z"@,
        shortcut_name(s) == "cut"@ ==> shortcut_key_spec(s) == "ctrl+x"@,
        shortcut_name(s) == "copy"@ ==> shortcut_key_spec(s) == "ctrl+c"@,
        shortcut_name(s) == "paste"@ ==> shortcut_key_spec(s) == "ctrl+v"@,
        shortcut_name(s) == "clear"@ ==> shortcut_key_spec(s) == "Delete"@,
        shortcut_name(s) == "select_all"@ ==> shortcut_key_spec(s) == "ctrl+a"@,
{
    reveal_strlit("undo");
    reveal_strlit("cut");
    reveal_strlit("copy");
    reveal_strlit("paste");
    reveal_strlit("clear");
    reveal_strlit("select_all");
    assert("cut"@.len() != "undo"@.len());
    assert("copy"@[0] != "undo"@[0]);
    assert("paste"@[0] != "clear"@[0]);
    assert("cut"@ != "undo"@);
    assert("copy"@ != "undo"@);
    assert("paste"@ != "clear"@);
    assert("copy"@.len() != "cut"@.len());
    assert("copy"@ != "cut"@);
    assert("undo"@.len() != "paste"@.len() && "undo"@.len() != "clear"@.len()
        && "undo"@.len() != "select_all"@.len() && "undo"@.len() != "cut"@.len());
    assert("copy"@.len() != "paste"@.len() && "copy"@.len() != "clear"@.len()
        && "copy"@.len() != "select_all"@.len());
    assert("cut"@.len() != "paste"@.len() && "cut"@.len() != "clear"@.len()
        && "cut"@.len() != "select_all"@.len());
    assert("paste"@.len() != "select_all"@.len() && "clear"@.len() != "select_all"@.len());
}

/// A folder requested by its name is that folder: `applications` the user's
/// launcher folder, `home` the home directory and `desktop` the desktop.
pub proof fn lemma_folder_names(f: FolderId)
    ensures
        (folder_name(f) == "applications"@) == (f == FolderId::Applications),
        (folder_name(f) == "home"@) == (f == FolderId::Home),
        (folder_name(f) == "desktop"@) == (f == FolderId::Desktop),
{
    reveal_strlit("applications");
    reveal_strlit("home");
    reveal_strlit("desktop");
    assert("applications"@.len() != "home"@.len() && "applications"@.len() != "desktop"@.len()
        && "home"@.len() != "desktop"@.len());
}

} // verus!
