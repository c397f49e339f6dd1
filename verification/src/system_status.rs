//! Network and audio status of the control strip: reading the output of the
//! system tools, and the commands that change the volume.
use vstd::prelude::*;

use crate::launcher::commands_view;
use crate::text::{
    append_chars, ascii_lower_seq, ascii_lowercase, chars_eq_str, chars_of, decimal, decimal_u32,
    has_prefix, lines, split_lines, starts_with, string_from, string_of, trim, trim_chars,
};

verus! {

broadcast use vstd::seq_lib::group_seq_properties;

/// What the control strip shows about the network and the audio.
#[derive(Debug, Clone)]
pub struct SystemStatus {
    pub ssid: Option<String>,
    pub internet_available: bool,
    pub volume: u8,
    pub audio_available: bool,
}

/// The status to show, given the Wi-Fi network in use, whether a connectivity
/// check found the internet reachable, and the current volume when it could be
/// read. The internet counts as available only while on a Wi-Fi network; an
/// unknown volume shows as 0 with the audio marked unavailable.
pub fn get_system_status(ssid: Option<String>, internet_reachable: bool, volume: Option<u8>) -> (r:
    SystemStatus)
    ensures
        crate::desktop_entries::opt_string_view(r.ssid) == crate::desktop_entries::opt_string_view(
            ssid,
        ),
        r.internet_available == (ssid is Some && internet_reachable),
        r.volume == match volume {
            Some(v) => v,
            None => 0u8,
        },
        r.audio_available == volume is Some,
{
    let internet_available = ssid.is_some() && internet_reachable;
    SystemStatus {
        ssid,
        internet_available,
        volume: match volume {
            Some(v) => v,
            None => 0,
        },
        audio_available: volume.is_some(),
    }
}

// ---------------------------------------------------------------------------
// Reading tool output
// ---------------------------------------------------------------------------

/// `s` with each backslash escape of `nmcli`'s terse output resolved: a
/// backslash stands for the character after it; a final backslash stands for
/// itself.
pub open spec fn unescape_spec(s: Seq<char>, escaped: bool) -> Seq<char>
    decreases s.len(),
{
    if s.len() == 0 {
        if escaped {
            seq!['\\']
        } else {
            seq![]
        }
    } else if escaped {
        seq![s[0]] + unescape_spec(s.drop_first(), false)
    } else if s[0] == '\\' {
        unescape_spec(s.drop_first(), true)
    } else {
        seq![s[0]] + unescape_spec(s.drop_first(), false)
    }
}

/// A value of `nmcli`'s terse output with its escapes resolved.
pub fn unescape_nmcli_value(value: &str) -> (r: String)
    ensures
        r@ == unescape_spec(value@, false),
{
    let v = chars_of(value);
    let mut out: Vec<char> = Vec::new();
    let mut escaped = false;
    assert(v@.skip(0) =~= v@);
    for i in 0..v.len()
        invariant
            unescape_spec(v@, false) == out@ + unescape_spec(v@.skip(i as int), escaped),
    {
        let ghost rest = v@.skip(i as int);
        assert(rest[0] == v@[i as int]);
        assert(rest.drop_first() =~= v@.skip(i + 1));
        if escaped {
            let ghost before = out@;
            out.push(v[i]);
            assert(before + (seq![v@[i as int]] + unescape_spec(v@.skip(i + 1), false)) =~= out@
                + unescape_spec(v@.skip(i + 1), false));
            escaped = false;
        } else if v[i] == '\\' {
            escaped = true;
        } else {
            let ghost before = out@;
            out.push(v[i]);
            assert(before + (seq![v@[i as int]] + unescape_spec(v@.skip(i + 1), false)) =~= out@
                + unescape_spec(v@.skip(i + 1), false));
        }
    }
    assert(v@.skip(v.len() as int) =~= Seq::<char>::empty());
    if escaped {
        out.push('\\');
    } else {
        assert(out@ + Seq::<char>::empty() =~= out@);
    }
    string_of(&out)
}

/// A value without backslashes reads as itself.
pub proof fn lemma_unescape_plain(s: Seq<char>)
    requires
        forall|i: int| 0 <= i < s.len() ==> s[i] != '\\',
    ensures
        unescape_spec(s, false) == s,
    decreases s.len(),
{
    if s.len() > 0 {
        lemma_unescape_plain(s.drop_first());
        assert(s =~= seq![s[0]] + s.drop_first());
    }
}

/// The network that a line of `nmcli -t -f ACTIVE,SSID dev wifi` names as the
/// active one, if it does: the rest of a line that starts with `yes:`, trimmed
/// and unescaped, when that is not empty.
pub open spec fn active_ssid_of_line(line: Seq<char>) -> Option<Seq<char>> {
    if has_prefix(line, "yes:"@) {
        let ssid = unescape_spec(trim(line.skip(4)), false);
        if ssid.len() > 0 {
            Some(ssid)
        } else {
            None
        }
    } else {
        None
    }
}

/// The active network of the first line that names one.
pub open spec fn first_active_ssid(lines: Seq<Seq<char>>) -> Option<Seq<char>>
    decreases lines.len(),
{
    if lines.len() == 0 {
        None
    } else {
        match active_ssid_of_line(lines[0]) {
            Some(s) => Some(s),
            None => first_active_ssid(lines.drop_first()),
        }
    }
}

/// The active Wi-Fi network that `nmcli -t -f ACTIVE,SSID dev wifi` reports.
pub fn ssid_from_nmcli(output: &str) -> (r: Option<String>)
    ensures
        crate::desktop_entries::opt_string_view(r) == first_active_ssid(lines(output@)),
{
    let v = chars_of(output);
    let ls = split_lines(&v);
    let ghost lv = ls.deep_view();
    let prefix = chars_of("yes:");
    proof {
        reveal_strlit("yes:");
    }
    assert(lv.skip(0) =~= lv);
    for i in 0..ls.len()
        invariant
            lv == ls.deep_view(),
            lv == lines(output@),
            prefix@ == "yes:"@,
            prefix@.len() == 4,
            first_active_ssid(lv) == first_active_ssid(lv.skip(i as int)),
    {
        assert(ls@[i as int].deep_view() =~= ls@[i as int]@);
        assert(lv.skip(i as int)[0] == ls@[i as int]@);
        assert(lv.skip(i as int).drop_first() =~= lv.skip(i + 1));
        let line = &ls[i];
        if starts_with(line, &prefix) {
            let mut rest: Vec<char> = Vec::new();
            for j in 4..line.len()
                invariant
                    prefix@.len() == 4,
                    4 <= line@.len(),
                    rest@ == line@.subrange(4, j as int),
            {
                rest.push(line[j]);
                assert(line@.subrange(4, j + 1) == line@.subrange(4, j as int).push(line@[j as int]));
            }
            assert(rest@ =~= line@.skip(4));
            let trimmed = trim_chars(&rest);
            let trimmed_text = string_of(&trimmed);
            let ssid = unescape_nmcli_value(trimmed_text.as_str());
            if !ssid.as_str().is_empty() {
                return Some(ssid);
            }
        }
    }
    assert(lv.skip(ls.len() as int) =~= Seq::<Seq<char>>::empty());
    None
}

/// The network that `iwgetid -r` reports: its output, trimmed, unless empty.
pub fn ssid_from_iwgetid(output: &str) -> (r: Option<String>)
    ensures
        trim(output@).len() == 0 ==> r is None,
        trim(output@).len() > 0 ==> (r matches Some(s) && s@ == trim(output@)),
{
    let v = chars_of(output);
    let t = trim_chars(&v);
    if t.len() == 0 {
        None
    } else {
        Some(string_of(&t))
    }
}

/// What `nmcli -t networking connectivity check` says about the internet:
/// reachable for `full`, unreachable for `limited`, `portal` or `none` (in any
/// ASCII case, around white space), and nothing otherwise.
pub open spec fn connectivity_spec(output: Seq<char>) -> Option<bool> {
    let word = ascii_lower_seq(trim(output));
    if word == "full"@ {
        Some(true)
    } else if word == "limited"@ || word == "portal"@ || word == "none"@ {
        Some(false)
    } else {
        None
    }
}

/// What the connectivity check's output says about the internet.
pub fn connectivity_from_nmcli(output: &str) -> (r: Option<bool>)
    ensures
        r == connectivity_spec(output@),
{
    let v = chars_of(output);
    let t = trim_chars(&v);
    let word = ascii_lowercase(&t);
    if chars_eq_str(&word, "full") {
        Some(true)
    } else if chars_eq_str(&word, "limited") || chars_eq_str(&word, "portal") || chars_eq_str(
        &word,
        "none",
    ) {
        Some(false)
    } else {
        None
    }
}

/// An ASCII digit.
pub open spec fn is_digit(c: char) -> bool {
    '0' <= c <= '9'
}

/// The value of a sequence of ASCII digits.
pub open spec fn digits_value(d: Seq<char>) -> nat
    decreases d.len(),
{
    if d.len() == 0 {
        0
    } else {
        digits_value(d.drop_last()) * 10 + ((d.last() as u32) - ('0' as u32)) as nat
    }
}

/// Where the run of ASCII digits that ends just before position `i` starts.
pub open spec fn digit_run_start(s: Seq<char>, i: int) -> int
    decreases i,
{
    if i > 0 && i <= s.len() && is_digit(s[i - 1]) {
        digit_run_start(s, i - 1)
    } else {
        i
    }
}

/// The percentage that a `%` at position `i` of `s` ends: the digits just before
/// it, when there are some and they fit in a byte, capped at 100.
pub open spec fn percent_at(s: Seq<char>, i: int) -> Option<u8> {
    let k = digit_run_start(s, i);
    if s[i] == '%' && k < i && digits_value(s.subrange(k, i)) <= 255 {
        let v = digits_value(s.subrange(k, i));
        Some(if v > 100 { 100u8 } else { v as u8 })
    } else {
        None
    }
}

/// The first percentage at or after position `i`.
pub open spec fn first_percent_from(s: Seq<char>, i: int) -> Option<u8>
    decreases s.len() - i,
{
    if i < 0 || i >= s.len() {
        None
    } else {
        match percent_at(s, i) {
            Some(v) => Some(v),
            None => first_percent_from(s, i + 1),
        }
    }
}

/// The value of the digits `s[k..i]`, or 256 when it is larger than that.
fn capped_digits_value(s: &Vec<char>, k: usize, i: usize) -> (r: u32)
    requires
        k <= i <= s.len(),
        forall|j: int| k <= j < i ==> is_digit(s@[j]),
    ensures
        r == if digits_value(s@.subrange(k as int, i as int)) > 256 {
            256
        } else {
            digits_value(s@.subrange(k as int, i as int))
        },
{
    let mut v: u32 = 0;
    for j in k..i
        invariant
            k <= i <= s.len(),
            forall|m: int| k <= m < i ==> is_digit(s@[m]),
            v == if digits_value(s@.subrange(k as int, j as int)) > 256 {
                256
            } else {
                digits_value(s@.subrange(k as int, j as int))
            },
    {
        let d = (s[j] as u32) - ('0' as u32);
        assert(s@.subrange(k as int, j + 1).drop_last() =~= s@.subrange(k as int, j as int));
        let next = v * 10 + d;
        v = if next > 256 {
            256
        } else {
            next
        };
    }
    v
}

/// The first percentage in a tool's output, such as `50%` in `pactl` or
/// `amixer` output, capped at 100; digits that do not fit in a byte are skipped.
pub fn parse_first_percent(output: &str) -> (r: Option<u8>)
    ensures
        r == first_percent_from(output@, 0),
{
    let v = chars_of(output);
    for i in 0..v.len()
        invariant
            v@ == output@,
            first_percent_from(v@, 0) == first_percent_from(v@, i as int),
    {
        if v[i] == '%' {
            let mut k = i;
            while k > 0 && '0' <= v[k - 1] && v[k - 1] <= '9'
                invariant
                    k <= i < v.len(),
                    digit_run_start(v@, i as int) == digit_run_start(v@, k as int),
                    forall|j: int| k <= j < i ==> is_digit(v@[j]),
                decreases k,
            {
                k = k - 1;
            }
            if k < i {
                let value = capped_digits_value(&v, k, i);
                if value <= 255 {
                    let capped: u8 = if value > 100 {
                        100
                    } else {
                        value as u8
                    };
                    return Some(capped);
                }
            }
        }
    }
    None
}

// ---------------------------------------------------------------------------
// Changing the volume
// ---------------------------------------------------------------------------

/// The installed volume tools, in the order of preference.
#[derive(Debug, Clone)]
pub struct VolumeTools {
    pub wpctl: bool,
    pub pactl: bool,
    pub amixer: bool,
}

/// The commands that set the volume.
#[derive(Debug, Clone)]
pub enum VolumePlan {
    /// Run these commands in order, stopping at the first failure.
    AllOf(Vec<Vec<String>>),
    /// Run these commands in order, stopping at the first success.
    FirstOf(Vec<Vec<String>>),
    /// No tool can set the volume; the text says so.
    Unsupported(String),
}

/// A volume given as a percentage argument.
pub open spec fn percent_arg(volume: u8) -> Seq<char> {
    decimal(volume as nat) + "%"@
}

/// The commands that set the volume to `volume`, at most 100, with the first
/// installed tool: `wpctl` sets the default sink's volume and then its mute
/// state, as does `pactl`; `amixer` sets the `Master` control, or else `PCM`.
/// A volume of 0 mutes.
pub open spec fn volume_plan_spec(volume: u8, tools: VolumeTools) -> (int, Seq<Seq<Seq<char>>>) {
    let v = if volume > 100 {
        100u8
    } else {
        volume
    };
    let pct = percent_arg(v);
    if tools.wpctl {
        (
            0,
            seq![
                seq!["wpctl"@, "set-volume"@, "@DEFAULT_AUDIO_SINK@"@, pct],
                seq!["wpctl"@, "set-mute"@, "@DEFAULT_AUDIO_SINK@"@, if v == 0 { "1"@ } else { "0"@ }],
            ],
        )
    } else if tools.pactl {
        (
            0,
            seq![
                seq!["pactl"@, "set-sink-volume"@, "@DEFAULT_SINK@"@, pct],
                seq!["pactl"@, "set-sink-mute"@, "@DEFAULT_SINK@"@, if v == 0 { "1"@ } else { "0"@ }],
            ],
        )
    } else if tools.amixer {
        let mute = if v == 0 {
            "mute"@
        } else {
            "unmute"@
        };
        (
            1,
            seq![
                seq!["amixer"@, "-q"@, "sset"@, "Master"@, pct, mute],
                seq!["amixer"@, "-q"@, "sset"@, "PCM"@, pct, mute],
            ],
        )
    } else {
        (2, seq![])
    }
}

/// A command of four words.
fn command4(a: &str, b: &str, c: &str, d: String) -> (r: Vec<String>)
    ensures
        r.deep_view() == seq![a@, b@, c@, d@],
{
    let mut r: Vec<String> = Vec::new();
    r.push(string_from(a));
    r.push(string_from(b));
    r.push(string_from(c));
    r.push(d);
    assert(r.deep_view() =~= seq![a@, b@, c@, d@]);
    r
}

/// The commands that set the volume to `volume` with the installed `tools`; an
/// unsupported plan when none is installed.
pub fn set_system_volume(volume: u8, tools: VolumeTools) -> (r: VolumePlan)
    ensures
        ({
            let (kind, cmds) = volume_plan_spec(volume, tools);
            match r {
                VolumePlan::AllOf(c) => kind == 0 && commands_view(c@) == cmds,
                VolumePlan::FirstOf(c) => kind == 1 && commands_view(c@) == cmds,
                VolumePlan::Unsupported(m) => kind == 2 && m@
                    == "no supported system volume tool found; expected wpctl, pactl, or amixer"@,
            }
        }),
{
    let v: u8 = if volume > 100 {
        100
    } else {
        volume
    };
    let mut pct = decimal_u32(v as u32);
    pct.push('%');
    let ghost pv = pct@;
    proof {
        reveal_strlit("%");
    }
    assert(pv =~= percent_arg(v));
    if tools.wpctl || tools.pactl {
        let (program, set_volume, set_mute, sink) = if tools.wpctl {
            ("wpctl", "set-volume", "set-mute", "@DEFAULT_AUDIO_SINK@")
        } else {
            ("pactl", "set-sink-volume", "set-sink-mute", "@DEFAULT_SINK@")
        };
        let mute = if v == 0 {
            "1"
        } else {
            "0"
        };
        let a = command4(program, set_volume, sink, string_of(&pct));
        let b = command4(program, set_mute, sink, string_from(mute));
        let mut r: Vec<Vec<String>> = Vec::new();
        r.push(a);
        r.push(b);
        assert(commands_view(r@) =~~= volume_plan_spec(volume, tools).1);
        VolumePlan::AllOf(r)
    } else if tools.amixer {
        let mute = if v == 0 {
            "mute"
        } else {
            "unmute"
        };
        let mut a: Vec<String> = Vec::new();
        a.push(string_from("amixer"));
        a.push(string_from("-q"));
        a.push(string_from("sset"));
        a.push(string_from("Master"));
        a.push(string_of(&pct));
        a.push(string_from(mute));
        let mut b: Vec<String> = Vec::new();
        b.push(string_from("amixer"));
        b.push(string_from("-q"));
        b.push(string_from("sset"));
        b.push(string_from("PCM"));
        b.push(string_of(&pct));
        b.push(string_from(mute));
        let mut r: Vec<Vec<String>> = Vec::new();
        r.push(a);
        r.push(b);
        assert(commands_view(r@) =~~= volume_plan_spec(volume, tools).1);
        VolumePlan::FirstOf(r)
    } else {
        VolumePlan::Unsupported(
            string_from("no supported system volume tool found; expected wpctl, pactl, or amixer"),
        )
    }
}

/// The network settings tools to try, in order.
pub open spec fn network_settings_commands_spec() -> Seq<Seq<Seq<char>>> {
    seq![
        seq!["nm-connection-editor"@],
        seq!["connman-gtk"@],
        seq!["wicd-client"@],
        seq!["x-terminal-emulator"@, "-e"@, "nmtui"@],
        seq!["lxterminal"@, "-e"@, "nmtui"@],
    ]
}

/// The network settings tools to try, in order.
pub fn network_settings_commands() -> (r: Vec<Vec<String>>)
    ensures
        commands_view(r@) == network_settings_commands_spec(),
{
    let mut a: Vec<String> = Vec::new();
    a.push(string_from("nm-connection-editor"));
    let mut b: Vec<String> = Vec::new();
    b.push(string_from("connman-gtk"));
    let mut c: Vec<String> = Vec::new();
    c.push(string_from("wicd-client"));
    let mut d: Vec<String> = Vec::new();
    d.push(string_from("x-terminal-emulator"));
    d.push(string_from("-e"));
    d.push(string_from("nmtui"));
    let mut e: Vec<String> = Vec::new();
    e.push(string_from("lxterminal"));
    e.push(string_from("-e"));
    e.push(string_from("nmtui"));
    let mut r: Vec<Vec<String>> = Vec::new();
    r.push(a);
    r.push(b);
    r.push(c);
    r.push(d);
    r.push(e);
    assert(commands_view(r@) =~~= network_settings_commands_spec());
    r
}

/// A percentage read from tool output is never above 100.
pub proof fn lemma_percent_at_most_100(s: Seq<char>, i: int)
    ensures
        first_percent_from(s, i) matches Some(v) ==> v <= 100,
    decreases s.len() - i,
{
    if 0 <= i < s.len() {
        lemma_percent_at_most_100(s, i + 1);
    }
}

/// Only the connectivity word `full` reports the internet reachable; `limited`,
/// `portal` and `none` report it unreachable; any other output says nothing.
/// The word is read in any ASCII case and without surrounding white space.
pub proof fn lemma_connectivity_words(output: Seq<char>)
    ensures
        ({
            let w = ascii_lower_seq(trim(output));
            &&& connectivity_spec(output) == Some(true) <==> w == "full"@
            &&& connectivity_spec(output) == Some(false) <==> (w == "limited"@ || w == "portal"@
                || w == "none"@)
            &&& connectivity_spec(output) is None <==> !(w == "full"@ || w == "limited"@ || w
                == "portal"@ || w == "none"@)
        }),
{
    reveal_strlit("full");
    reveal_strlit("none");
    reveal_strlit("limited");
    reveal_strlit("portal");
    assert("full"@[0] != "none"@[0]);
    assert("full"@ != "none"@);
    assert("full"@.len() != "limited"@.len());
    assert("full"@ != "limited"@);
    assert("full"@.len() != "portal"@.len());
    assert("full"@ != "portal"@);
}

/// Whatever tool sets the volume, it sets the requested volume capped at 100
/// and makes the sink muted exactly when that volume is 0: `wpctl` (preferred)
/// and `pactl` set the volume and then the mute flag, `1` to mute and `0` to
/// unmute; `amixer` sets the `Master` control, or else `PCM`, with `mute` or
/// `unmute`.
pub proof fn lemma_volume_mutes_exactly_at_zero(volume: u8, tools: VolumeTools)
    ensures
        ({
            let (kind, cmds) = volume_plan_spec(volume, tools);
            let v: int = if volume > 100 {
                100
            } else {
                volume as int
            };
            let pct = decimal(v as nat) + "%"@;
            &&& (tools.wpctl || tools.pactl) ==> {
                &&& kind == 0
                &&& cmds.len() == 2
                &&& cmds[0].len() == 4
                &&& cmds[1].len() == 4
                &&& cmds[0][0] == (if tools.wpctl {
                    "wpctl"@
                } else {
                    "pactl"@
                })
                &&& cmds[1][0] == cmds[0][0]
                &&& cmds[0][3] == pct
                &&& cmds[1][1] == (if tools.wpctl {
                    "set-mute"@
                } else {
                    "set-sink-mute"@
                })
                &&& (cmds[1][3] == "1"@ <==> v == 0)
                &&& (cmds[1][3] == "0"@ <==> v != 0)
            }
            &&& (!tools.wpctl && !tools.pactl && tools.amixer) ==> {
                &&& kind == 1
                &&& cmds.len() == 2
                &&& cmds[0].len() == 6
                &&& cmds[1].len() == 6
                &&& cmds[0][3] == "Master"@
                &&& cmds[1][3] == "PCM"@
                &&& cmds[0][4] == pct
                &&& cmds[1][4] == pct
                &&& (cmds[0][5] == "mute"@ <==> v == 0)
                &&& (cmds[0][5] == "unmute"@ <==> v != 0)
                &&& cmds[1][5] == cmds[0][5]
            }
            &&& !(tools.wpctl || tools.pactl || tools.amixer) ==> kind == 2
        }),
{
    reveal_strlit("1");
    reveal_strlit("0");
    reveal_strlit("mute");
    reveal_strlit("unmute");
    assert("1"@[0] != "0"@[0]);
    assert("1"@ != "0"@);
    assert("mute"@.len() != "unmute"@.len());
    assert("mute"@ != "unmute"@);
}

} // verus!
