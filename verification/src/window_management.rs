//! Window management helpers of the Special menu: the window overview and
//! showing the desktop, both of which leave PiForma's own shell windows alone.
use vstd::prelude::*;

use crate::launcher::join_spec;
use crate::shell_identity::shell_window_names;
use crate::text::{append_str, chars_of, string_from, string_of};

verus! {

broadcast use vstd::seq_lib::group_seq_properties;

/// The extended regular expression that matches the class or title of PiForma's
/// shell windows.
pub const SHELL_WINDOW_PATTERN: &'static str =
    "PiForma Panel|PiForma Menu|Control Strip|At Ease|At-Ease|Clippy|PiForma Window Overview";

/// The window overview script up to the shell window pattern.
pub const SHOW_ALL_WINDOWS_SCRIPT_HEAD: &'static str = "
set -eu
list=\"${TMPDIR:-/tmp}/piforma-window-overview-$$.tsv\"
trap 'rm -f \"$list\"' EXIT

wmctrl -lx | while read -r id desktop class host title; do
  [ -n \"${id:-}\" ] || continue
  props=\"$(xprop -id \"$id\" _NET_WM_WINDOW_TYPE 2>/dev/null || true)\"
  case \"$props\" in
    *DOCK*|*DESKTOP*|*SPLASH*|*TOOLTIP*|*NOTIFICATION*) continue ;;
  esac
  identity=\"$class $title\"
  printf '%s' \"$identity\" | grep -Eiq '";

/// The window overview script after the shell window pattern.
pub const SHOW_ALL_WINDOWS_SCRIPT_TAIL: &'static str = "' && continue
  [ -n \"${title:-}\" ] || title=\"(Untitled Window)\"
  printf '%s\\t%s\\t%s\\n' \"$id\" \"$title\" \"$class\" >> \"$list\"
done

[ -s \"$list\" ] || {
  if command -v zenity >/dev/null 2>&1; then
    zenity --info --title='Show All Windows' --text='No application windows are open.'
  else
    yad --info --title='Show All Windows' --text='No application windows are open.'
  fi
  exit 0
}

(
  i=0
  while [ \"$i\" -lt 30 ]; do
    wmctrl -r 'PiForma Window Overview' -b add,above,sticky 2>/dev/null && exit 0
    i=$((i + 1))
    sleep 0.05
  done
) &

if command -v zenity >/dev/null 2>&1; then
  selected=\"$(zenity --list --title='PiForma Window Overview' --text='Choose a window:' \\
    --column='Window ID' --column='Window' --column='Application' \\
    --hide-column=1 --print-column=1 --width=640 --height=420 < \"$list\" || true)\"
else
  selected=\"$(yad --list --title='PiForma Window Overview' --text='Choose a window:' \\
    --column='Window ID' --column='Window' --column='Application' \\
    --hide-column=1 --print-column=1 --width=640 --height=420 < \"$list\" || true)\"
fi

[ -n \"$selected\" ] || exit 0
wmctrl -i -r \"$selected\" -b remove,hidden 2>/dev/null || true
wmctrl -i -a \"$selected\" 2>/dev/null || {
  xdotool windowmap \"$selected\" 2>/dev/null || true
  xdotool windowactivate --sync \"$selected\"
}
";

/// The show-desktop script up to the shell window pattern.
pub const SHOW_DESKTOP_SCRIPT_HEAD: &'static str = "
set -eu
state=\"${XDG_RUNTIME_DIR:-/tmp}/piforma-show-desktop-${UID:-$(id -u)}.windows\"

if [ -s \"$state\" ]; then
  last=\"\"
  while IFS= read -r id; do
    [ -n \"$id\" ] || continue
    wmctrl -i -r \"$id\" -b remove,hidden 2>/dev/null || xdotool windowmap \"$id\" 2>/dev/null || true
    last=\"$id\"
  done < \"$state\"
  rm -f \"$state\"
  [ -n \"$last\" ] && wmctrl -i -a \"$last\" 2>/dev/null || true
  exit 0
fi

: > \"$state\"
wmctrl -lx | while read -r id desktop class host title; do
  [ -n \"${id:-}\" ] || continue
  props=\"$(xprop -id \"$id\" _NET_WM_WINDOW_TYPE 2>/dev/null || true)\"
  case \"$props\" in
    *DOCK*|*DESKTOP*|*SPLASH*|*TOOLTIP*|*NOTIFICATION*) continue ;;
  esac
  identity=\"$class $title\"
  printf '%s' \"$identity\" | grep -Eiq '";

/// The show-desktop script after the shell window pattern.
pub const SHOW_DESKTOP_SCRIPT_TAIL: &'static str = "' && continue
  printf '%s\\n' \"$id\" >> \"$state\"
done

if [ ! -s \"$state\" ]; then
  rm -f \"$state\"
  exit 0
fi

while IFS= read -r id; do
  xdotool windowminimize \"$id\" 2>/dev/null || wmctrl -i -r \"$id\" -b add,hidden 2>/dev/null || true
done < \"$state\"
";

/// The tools of `tools` that are not available, in order.
pub open spec fn missing_tools(tools: Seq<Seq<char>>, available: Seq<bool>) -> Seq<Seq<char>>
    decreases tools.len(),
{
    if tools.len() == 0 {
        seq![]
    } else {
        let rest = missing_tools(tools.drop_last(), available);
        if available[tools.len() - 1] {
            rest
        } else {
            rest.push(tools.last())
        }
    }
}

/// Checks that the window management tools `tools` are installed;
/// `available[i]` tells whether `tools[i]` is. The error names the missing ones.
pub fn require_x11_tools(tools: &Vec<&str>, available: &Vec<bool>) -> (r: Result<(), String>)
    requires
        available@.len() == tools@.len(),
    ensures
        ({
            let missing = missing_tools(tools@.map_values(|t: &str| t@), available@);
            &&& missing.len() == 0 ==> r is Ok
            &&& missing.len() > 0 ==> (r matches Err(e) && e@ == "window management requires: "@
                + join_spec(missing, ", "@))
        }),
{
    let ghost tv = tools@.map_values(|t: &str| t@);
    let mut missing: Vec<String> = Vec::new();
    for i in 0..tools.len()
        invariant
            available@.len() == tools@.len(),
            tv == tools@.map_values(|t: &str| t@),
            missing.deep_view() == missing_tools(tv.take(i as int), available@),
    {
        assert(tv.take(i + 1).drop_last() =~= tv.take(i as int));
        assert(tv.take(i + 1).last() == tools@[i as int]@);
        if !available[i] {
            let ghost before = missing.deep_view();
            missing.push(string_from(tools[i]));
            assert(missing.deep_view() =~= before.push(tools@[i as int]@));
        }
    }
    assert(tv.take(tools.len() as int) =~= tv);
    if missing.len() == 0 {
        Ok(())
    } else {
        let joined = crate::launcher::join_strings(&missing, ", ");
        let mut v = chars_of("window management requires: ");
        append_str(&mut v, joined.as_str());
        Err(string_of(&v))
    }
}

/// The script of the window overview.
pub open spec fn show_all_windows_script() -> Seq<char> {
    SHOW_ALL_WINDOWS_SCRIPT_HEAD@ + SHELL_WINDOW_PATTERN@ + SHOW_ALL_WINDOWS_SCRIPT_TAIL@
}

/// The script that toggles showing the desktop.
pub open spec fn show_desktop_script() -> Seq<char> {
    SHOW_DESKTOP_SCRIPT_HEAD@ + SHELL_WINDOW_PATTERN@ + SHOW_DESKTOP_SCRIPT_TAIL@
}

/// `head`, then the shell window pattern, then `tail`.
fn script_around_pattern(head: &str, tail: &str) -> (r: String)
    ensures
        r@ == head@ + SHELL_WINDOW_PATTERN@ + tail@,
{
    let mut v = chars_of(head);
    append_str(&mut v, SHELL_WINDOW_PATTERN);
    append_str(&mut v, tail);
    string_of(&v)
}

/// The shell script that shows the window overview, which lists the open
/// application windows (not the shell's own) and activates the chosen one; an
/// error when `wmctrl`, or both `zenity` and `yad`, are missing.
pub fn show_all_windows(has_wmctrl: bool, has_zenity: bool, has_yad: bool) -> (r: Result<
    String,
    String,
>)
    ensures
        !has_wmctrl ==> (r matches Err(e) && e@ == "window management requires: wmctrl"@),
        has_wmctrl && !has_zenity && !has_yad ==> (r matches Err(e) && e@
            == "Show All Windows requires zenity or yad"@),
        has_wmctrl && (has_zenity || has_yad) ==> (r matches Ok(s) && s@
            == show_all_windows_script()),
{
    if !has_wmctrl {
        return Err(string_from("window management requires: wmctrl"));
    }
    if !has_zenity && !has_yad {
        return Err(string_from("Show All Windows requires zenity or yad"));
    }
    Ok(script_around_pattern(SHOW_ALL_WINDOWS_SCRIPT_HEAD, SHOW_ALL_WINDOWS_SCRIPT_TAIL))
}

/// The shell script that toggles showing the desktop: it minimizes the open
/// application windows (not the shell's own), or restores the ones it minimized;
/// an error naming whichever of `wmctrl` and `xdotool` is missing.
pub fn toggle_show_desktop(has_wmctrl: bool, has_xdotool: bool) -> (r: Result<String, String>)
    ensures
        !has_wmctrl && !has_xdotool ==> (r matches Err(e) && e@
            == "window management requires: wmctrl, xdotool"@),
        !has_wmctrl && has_xdotool ==> (r matches Err(e) && e@
            == "window management requires: wmctrl"@),
        has_wmctrl && !has_xdotool ==> (r matches Err(e) && e@
            == "window management requires: xdotool"@),
        has_wmctrl && has_xdotool ==> (r matches Ok(s) && s@ == show_desktop_script()),
{
    if !has_wmctrl && !has_xdotool {
        return Err(string_from("window management requires: wmctrl, xdotool"));
    }
    if !has_wmctrl {
        return Err(string_from("window management requires: wmctrl"));
    }
    if !has_xdotool {
        return Err(string_from("window management requires: xdotool"));
    }
    Ok(script_around_pattern(SHOW_DESKTOP_SCRIPT_HEAD, SHOW_DESKTOP_SCRIPT_TAIL))
}

/// The shell window pattern that the overview and show-desktop scripts match
/// lists exactly the shell window names, as alternatives, in order.
pub proof fn lemma_shell_pattern_lists_shell_names()
    ensures
        SHELL_WINDOW_PATTERN@ == join_spec(shell_window_names(), "|"@),
{
    reveal_strlit(
        "PiForma Panel|PiForma Menu|Control Strip|At Ease|At-Ease|Clippy|PiForma Window Overview",
    );
    reveal_strlit("PiForma Panel");
    reveal_strlit("PiForma Menu");
    reveal_strlit("Control Strip");
    reveal_strlit("At Ease");
    reveal_strlit("At-Ease");
    reveal_strlit("Clippy");
    reveal_strlit("PiForma Window Overview");
    reveal_strlit("|");
    let names = shell_window_names();
    reveal_with_fuel(join_spec, 8);
    assert(join_spec(names, "|"@) =~= SHELL_WINDOW_PATTERN@);
}

} // verus!
