//! Stable identity of PiForma's shell windows: Tauri labels, titles and window
//! roles, and the title fallback by which older builds are recognized.
use vstd::prelude::*;

use crate::text::{ascii_lower_seq, ascii_lowercase, chars_of, contains_chars, contains_seq, str_eq};

verus! {

/// The application id of the panel.
pub const PIFORMA_PANEL_APP_ID: &'static str = "org.piforma.panel";

/// The window manager class of the panel.
pub const PIFORMA_PANEL_WM_CLASS: &'static str = "org.piforma.panel";

/// A window that the panel owns.
#[derive(Clone, Copy, PartialEq, Eq, Structural, Debug)]
pub enum ShellWindowRole {
    MainPanel,
    MenuPopup,
    MenuFlyout,
}

/// The Tauri label of a shell window.
pub open spec fn tauri_label_spec(role: ShellWindowRole) -> Seq<char> {
    match role {
        ShellWindowRole::MainPanel => "main"@,
        ShellWindowRole::MenuPopup => "menu-popup"@,
        ShellWindowRole::MenuFlyout => "menu-flyout"@,
    }
}

/// The title of a shell window.
pub open spec fn title_spec(role: ShellWindowRole) -> Seq<char> {
    match role {
        ShellWindowRole::MainPanel => "PiForma Panel"@,
        ShellWindowRole::MenuPopup => "PiForma Menu"@,
        ShellWindowRole::MenuFlyout => "PiForma Menu Flyout"@,
    }
}

/// The GTK window role of a shell window.
pub open spec fn window_role_spec(role: ShellWindowRole) -> Seq<char> {
    match role {
        ShellWindowRole::MainPanel => "piforma-panel.main-panel"@,
        ShellWindowRole::MenuPopup => "piforma-panel.menu-popup"@,
        ShellWindowRole::MenuFlyout => "piforma-panel.menu-flyout"@,
    }
}

impl ShellWindowRole {
    /// The Tauri label of this window.
    pub fn tauri_label(self) -> (r: &'static str)
        ensures
            r@ == tauri_label_spec(self),
    {
        match self {
            ShellWindowRole::MainPanel => "main",
            ShellWindowRole::MenuPopup => "menu-popup",
            ShellWindowRole::MenuFlyout => "menu-flyout",
        }
    }

    /// The title of this window.
    pub fn title(self) -> (r: &'static str)
        ensures
            r@ == title_spec(self),
    {
        match self {
            ShellWindowRole::MainPanel => "PiForma Panel",
            ShellWindowRole::MenuPopup => "PiForma Menu",
            ShellWindowRole::MenuFlyout => "PiForma Menu Flyout",
        }
    }

    /// The GTK window role of this window.
    pub fn window_role(self) -> (r: &'static str)
        ensures
            r@ == window_role_spec(self),
    {
        match self {
            ShellWindowRole::MainPanel => "piforma-panel.main-panel",
            ShellWindowRole::MenuPopup => "piforma-panel.menu-popup",
            ShellWindowRole::MenuFlyout => "piforma-panel.menu-flyout",
        }
    }
}

/// A window title that belongs to the panel: one of its titles, the title of
/// older builds, or any title that mentions `piforma-panel`.
pub open spec fn is_panel_title_spec(name: Seq<char>) -> bool {
    ||| name == "PiForma Panel"@
    ||| name == "PiForma Menu"@
    ||| name == "PiForma Menu Flyout"@
    ||| name == "Classic PiForma menu bar"@
    ||| contains_seq(name, "piforma-panel"@)
}

/// Whether a window title belongs to the panel; a fallback for windows that
/// expose no role or class.
pub fn is_piforma_panel_title(name: &str) -> (r: bool)
    ensures
        r == is_panel_title_spec(name@),
{
    if str_eq(name, "PiForma Panel") || str_eq(name, "PiForma Menu") || str_eq(
        name,
        "PiForma Menu Flyout",
    ) || str_eq(name, "Classic PiForma menu bar") {
        return true;
    }
    let n = chars_of(name);
    let p = chars_of("piforma-panel");
    contains_chars(&n, &p)
}

/// The names of PiForma's shell windows, as the window tools match them in a
/// window's class or title: the alternatives of the shell window pattern.
pub open spec fn shell_window_names() -> Seq<Seq<char>> {
    seq![
        "PiForma Panel"@,
        "PiForma Menu"@,
        "Control Strip"@,
        "At Ease"@,
        "At-Ease"@,
        "Clippy"@,
        "PiForma Window Overview"@,
    ]
}

/// `title` names a PiForma shell window: it contains one of the shell window
/// names, ignoring ASCII case.
pub open spec fn names_shell_window(title: Seq<char>) -> bool {
    exists|i: int|
        0 <= i < shell_window_names().len() && #[trigger] contains_seq(
            ascii_lower_seq(title),
            ascii_lower_seq(shell_window_names()[i]),
        )
}

/// Whether the lower-cased text `lower` contains `name`, ignoring ASCII case.
fn contains_name(lower: &Vec<char>, name: &str) -> (r: bool)
    ensures
        r == contains_seq(lower@, ascii_lower_seq(name@)),
{
    let n = chars_of(name);
    let nl = ascii_lowercase(&n);
    contains_chars(lower, &nl)
}

/// Whether a window's title names a PiForma shell window.
pub fn is_shell_window_title(title: &str) -> (r: bool)
    ensures
        r == names_shell_window(title@),
{
    let t = chars_of(title);
    let lower = ascii_lowercase(&t);
    let ghost names = shell_window_names();
    assert(names[0] == "PiForma Panel"@);
    assert(names[1] == "PiForma Menu"@);
    assert(names[2] == "Control Strip"@);
    assert(names[3] == "At Ease"@);
    assert(names[4] == "At-Ease"@);
    assert(names[5] == "Clippy"@);
    assert(names[6] == "PiForma Window Overview"@);
    let r = contains_name(&lower, "PiForma Panel") || contains_name(&lower, "PiForma Menu")
        || contains_name(&lower, "Control Strip") || contains_name(&lower, "At Ease")
        || contains_name(&lower, "At-Ease") || contains_name(&lower, "Clippy") || contains_name(
        &lower,
        "PiForma Window Overview",
    );
    proof {
        let lv = ascii_lower_seq(title@);
        if r {
            assert(names_shell_window(title@));
        } else {
            assert forall|i: int| 0 <= i < names.len() implies !#[trigger] contains_seq(
                lv,
                ascii_lower_seq(names[i]),
            ) by {
                assert(i == 0 || i == 1 || i == 2 || i == 3 || i == 4 || i == 5 || i == 6);
            }
        }
    }
    r
}

/// Every shell window's title is recognized as the panel's.
pub proof fn lemma_shell_titles_recognized(role: ShellWindowRole)
    ensures
        is_panel_title_spec(title_spec(role)),
{
}

/// Different shell windows have different labels, titles and roles.
pub proof fn lemma_shell_identities_distinct(a: ShellWindowRole, b: ShellWindowRole)
    requires
        a != b,
    ensures
        tauri_label_spec(a) != tauri_label_spec(b),
        title_spec(a) != title_spec(b),
        window_role_spec(a) != window_role_spec(b),
{
    reveal_strlit("main");
    reveal_strlit("menu-popup");
    reveal_strlit("menu-flyout");
    reveal_strlit("PiForma Panel");
    reveal_strlit("PiForma Menu");
    reveal_strlit("PiForma Menu Flyout");
    reveal_strlit("piforma-panel.main-panel");
    reveal_strlit("piforma-panel.menu-popup");
    reveal_strlit("piforma-panel.menu-flyout");
    assert("main"@.len() != "menu-popup"@.len());
    assert("menu-popup"@ != "menu-flyout"@) by {
        assert("menu-popup"@[5] != "menu-flyout"@[5]);
    }
    assert("PiForma Panel"@.len() != "PiForma Menu Flyout"@.len());
    assert("PiForma Menu"@.len() != "PiForma Menu Flyout"@.len());
    assert("PiForma Panel"@ != "PiForma Menu"@) by {
        assert("PiForma Panel"@[8] != "PiForma Menu"@[8]);
    }
    assert("piforma-panel.main-panel"@ != "piforma-panel.menu-popup"@) by {
        assert("piforma-panel.main-panel"@[15] != "piforma-panel.menu-popup"@[15]);
    }
    assert("piforma-panel.main-panel"@ != "piforma-panel.menu-flyout"@) by {
        assert("piforma-panel.main-panel"@[15] != "piforma-panel.menu-flyout"@[15]);
    }
    assert("piforma-panel.menu-popup"@ != "piforma-panel.menu-flyout"@) by {
        assert("piforma-panel.menu-popup"@[19] != "piforma-panel.menu-flyout"@[19]);
    }
}

} // verus!
