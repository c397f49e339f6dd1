//! The memory of the desktop window that was active before the panel took the
//! focus, so that shortcuts and refreshes go back to it.
use vstd::prelude::*;

use crate::shell_identity::{
    is_panel_title_spec, is_piforma_panel_title, is_shell_window_title, names_shell_window,
};
use crate::text::string_from;

verus! {

/// The window that was active before the panel, if one is remembered.
#[derive(Debug, Clone)]
pub struct WindowMemory {
    pub previous_active_window: Option<String>,
}

impl Default for WindowMemory {
    fn default() -> (r: Self)
        ensures
            r.previous_active_window is None,
    {
        WindowMemory { previous_active_window: None }
    }
}

/// The window with the title `name` belongs to PiForma's shell: a title of the
/// panel, or one that names a shell window (Control Strip, At Ease, Clippy and
/// the others of the shell window pattern). A window whose title could not be
/// read does not.
pub open spec fn is_panel_window_spec(name: Option<Seq<char>>) -> bool {
    match name {
        Some(n) => is_panel_title_spec(n) || names_shell_window(n),
        None => false,
    }
}

/// Whether the window with the title `name` belongs to PiForma's shell, and so
/// is never a window to go back to.
pub fn is_panel_window(name: Option<&str>) -> (r: bool)
    ensures
        r == is_panel_window_spec(crate::config::opt_str_view(name)),
{
    match name {
        Some(n) => is_piforma_panel_title(n) || is_shell_window_title(n),
        None => false,
    }
}

/// What the memory holds after the active window `id`, whose title is `name`
/// when it could be read, was reported: an empty id or a window of PiForma's
/// shell leaves it as it was.
pub open spec fn remember_spec(before: Option<Seq<char>>, id: Seq<char>, name: Option<Seq<char>>) -> Option<Seq<char>> {
    if id.len() == 0 || is_panel_window_spec(name) {
        before
    } else {
        Some(id)
    }
}

/// Remembers the active window `window_id`, whose title is `window_name` when it
/// could be read: an empty id is an error and leaves the memory unchanged, and
/// a window of PiForma's shell leaves it unchanged without error.
pub fn remember_active_window(
    memory: &mut WindowMemory,
    window_id: &str,
    window_name: Option<&str>,
) -> (r: Result<(), String>)
    ensures
        final(memory)@ == remember_spec(
            old(memory)@,
            window_id@,
            crate::config::opt_str_view(window_name),
        ),
        window_id@.len() == 0 ==> (r matches Err(e) && e@
            == "xdotool did not return an active window"@),
        window_id@.len() > 0 ==> r is Ok,
{
    if window_id.is_empty() {
        return Err(string_from("xdotool did not return an active window"));
    }
    if is_panel_window(window_name) {
        return Ok(());
    }
    memory.previous_active_window = Some(string_from(window_id));
    Ok(())
}

impl View for WindowMemory {
    type V = Option<Seq<char>>;

    open spec fn view(&self) -> Option<Seq<char>> {
        crate::desktop_entries::opt_string_view(self.previous_active_window)
    }
}

impl WindowMemory {
    /// The remembered window; an error when none is remembered.
    pub fn remembered_window(&self) -> (r: Result<String, String>)
        ensures
            match self@ {
                Some(id) => (r matches Ok(w) && w@ == id),
                None => (r matches Err(e) && e@ == "no previously active window remembered"@),
            },
    {
        match &self.previous_active_window {
            Some(w) => Ok(w.clone()),
            None => Err(string_from("no previously active window remembered")),
        }
    }
}

/// The program and arguments that bring the window `window_id` back to the
/// front: `xdotool windowactivate --sync <id>`.
pub fn activation_command(window_id: &str) -> (r: (&'static str, Vec<String>))
    ensures
        r.0@ == "xdotool"@,
        r.1.deep_view() == seq!["windowactivate"@, "--sync"@, window_id@],
{
    let mut args: Vec<String> = Vec::new();
    args.push(string_from("windowactivate"));
    args.push(string_from("--sync"));
    args.push(string_from(window_id));
    assert(args.deep_view() =~= seq!["windowactivate"@, "--sync"@, window_id@]);
    ("xdotool", args)
}

/// The outcome of bringing the window `window_id` back: its id when the
/// activation command succeeded, that command's error otherwise.
pub fn activation_outcome(window_id: String, run: Result<(), String>) -> (r: Result<String, String>)
    ensures
        match run {
            Ok(()) => (r matches Ok(w) && w@ == window_id@),
            Err(e) => (r matches Err(m) && m@ == e@),
        },
{
    match run {
        Ok(()) => Ok(window_id),
        Err(e) => Err(e),
    }
}

/// Remembering an application window and then asking for the remembered window
/// gives that window back.
pub proof fn lemma_remembered_window_read_back(
    before: Option<Seq<char>>,
    id: Seq<char>,
    name: Option<Seq<char>>,
)
    requires
        id.len() > 0,
        !is_panel_window_spec(name),
    ensures
        remember_spec(before, id, name) == Some(id),
{
}

/// Reports of PiForma's shell windows (the panel's own, and any whose title
/// names a shell window) never change what is remembered.
pub proof fn lemma_panel_windows_not_remembered(
    before: Option<Seq<char>>,
    id: Seq<char>,
    name: Seq<char>,
)
    requires
        is_panel_title_spec(name) || names_shell_window(name),
    ensures
        remember_spec(before, id, Some(name)) == before,
{
}

} // verus!
