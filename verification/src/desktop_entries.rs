//! Application launchers: parsing of `.desktop` files and the ordered,
//! de-duplicated list of launchers that the menus show.
use vstd::prelude::*;

use crate::config::PanelConfig;
use crate::text::{
    ascii_lower_seq, ascii_lowercase, chars_eq_str, chars_of, compare_chars, seq_lt,
    split_chars, split_lines, split_once_chars, split_once_spec, split_on, string_from,
    string_of, str_eq, trim, trim_chars, lines, lemma_seq_lt_irreflexive,
    lemma_seq_lt_transitive, lemma_seq_lt_total, lemma_seq_lt_asymmetric,
};

verus! {

broadcast use vstd::seq_lib::group_seq_properties;

/// An application launcher as the menus show it.
#[derive(Debug, Clone)]
pub struct DesktopApp {
    pub id: String,
    pub name: String,
    pub exec_command: String,
    pub icon: Option<String>,
    pub categories: Vec<String>,
    pub group: String,
    pub is_control_panel: bool,
}

/// The model of a launcher: its text fields as character sequences.
pub struct DesktopAppView {
    pub id: Seq<char>,
    pub name: Seq<char>,
    pub exec_command: Seq<char>,
    pub icon: Option<Seq<char>>,
    pub categories: Seq<Seq<char>>,
    pub group: Seq<char>,
    pub is_control_panel: bool,
}

/// The characters of an optional string.
pub open spec fn opt_string_view(s: Option<String>) -> Option<Seq<char>> {
    match s {
        Some(v) => Some(v@),
        None => None,
    }
}

impl View for DesktopApp {
    type V = DesktopAppView;

    open spec fn view(&self) -> DesktopAppView {
        DesktopAppView {
            id: self.id@,
            name: self.name@,
            exec_command: self.exec_command@,
            icon: opt_string_view(self.icon),
            categories: self.categories.deep_view(),
            group: self.group@,
            is_control_panel: self.is_control_panel,
        }
    }
}

impl vstd::view::DeepView for DesktopApp {
    type V = DesktopAppView;

    open spec fn deep_view(&self) -> DesktopAppView {
        self@
    }
}

// ---------------------------------------------------------------------------
// The `[Desktop Entry]` key/value pairs
// ---------------------------------------------------------------------------

/// The state of reading a desktop file line by line: whether the current section
/// is `[Desktop Entry]`, and the key/value pairs read from it so far.
pub type EntryState = (bool, Seq<(Seq<char>, Seq<char>)>);

/// Reads one line: blank lines and comments are skipped, a section header
/// selects the section, and a `key=value` line of the `[Desktop Entry]` section
/// adds a pair, split at its first `=`.
pub open spec fn entry_step(state: EntryState, raw_line: Seq<char>) -> EntryState {
    let line = trim(raw_line);
    if line.len() == 0 || line[0] == '#' {
        state
    } else if line[0] == '[' && line.last() == ']' {
        (line == "[Desktop Entry]"@, state.1)
    } else if !state.0 {
        state
    } else {
        match split_once_spec(line, '=') {
            Some((k, v)) => (state.0, state.1.push((k, v))),
            None => state,
        }
    }
}

/// The state after reading `lines` in order.
pub open spec fn entry_fold(lines: Seq<Seq<char>>) -> EntryState
    decreases lines.len(),
{
    if lines.len() == 0 {
        (false, seq![])
    } else {
        entry_step(entry_fold(lines.drop_last()), lines.last())
    }
}

/// The key/value pairs of the `[Desktop Entry]` section of a desktop file.
pub open spec fn entry_pairs(contents: Seq<char>) -> Seq<(Seq<char>, Seq<char>)> {
    entry_fold(lines(contents)).1
}

/// The value of the last pair with the given key: a later line overrides an
/// earlier one.
pub open spec fn lookup(pairs: Seq<(Seq<char>, Seq<char>)>, key: Seq<char>) -> Option<Seq<char>>
    decreases pairs.len(),
{
    if pairs.len() == 0 {
        None
    } else if pairs.last().0 == key {
        Some(pairs.last().1)
    } else {
        lookup(pairs.drop_last(), key)
    }
}

/// The model of a vector of key/value pairs.
pub open spec fn pairs_view(v: Seq<(Vec<char>, Vec<char>)>) -> Seq<(Seq<char>, Seq<char>)> {
    v.map_values(|p: (Vec<char>, Vec<char>)| (p.0@, p.1@))
}

/// The key/value pairs of the `[Desktop Entry]` section of `contents`.
fn read_entry_pairs(contents: &str) -> (r: Vec<(Vec<char>, Vec<char>)>)
    ensures
        pairs_view(r@) == entry_pairs(contents@),
{
    let v = chars_of(contents);
    let all_lines = split_lines(&v);
    let ghost ls = all_lines.deep_view();
    let mut in_entry = false;
    let mut pairs: Vec<(Vec<char>, Vec<char>)> = Vec::new();
    for i in 0..all_lines.len()
        invariant
            ls == all_lines.deep_view(),
            ls == lines(v@),
            (in_entry, pairs_view(pairs@)) == entry_fold(ls.take(i as int)),
    {
        assert(ls.take(i + 1).drop_last() =~= ls.take(i as int));
        assert(ls.take(i + 1).last() == ls[i as int]);
        assert(all_lines@[i as int].deep_view() =~= all_lines@[i as int]@);
        let line = trim_chars(&all_lines[i]);
        if line.len() == 0 || line[0] == '#' {
        } else if line[0] == '[' && line[line.len() - 1] == ']' {
            in_entry = chars_eq_str(&line, "[Desktop Entry]");
        } else if !in_entry {
        } else {
            match split_once_chars(&line, '=') {
                Some((k, val)) => {
                    let ghost before = pairs@;
                    let ghost kv = (k@, val@);
                    pairs.push((k, val));
                    assert(pairs_view(pairs@) =~= pairs_view(before).push(kv));
                },
                None => {},
            }
        }
    }
    assert(ls.take(ls.len() as int) =~= ls);
    pairs
}

/// The value that `pairs` holds for the key `key`.
fn lookup_value(pairs: &Vec<(Vec<char>, Vec<char>)>, key: &str) -> (r: Option<Vec<char>>)
    ensures
        match r {
            Some(v) => lookup(pairs_view(pairs@), key@) == Some(v@),
            None => lookup(pairs_view(pairs@), key@) is None,
        },
{
    let ghost pv = pairs_view(pairs@);
    let mut found: Option<Vec<char>> = None;
    for i in 0..pairs.len()
        invariant
            pv == pairs_view(pairs@),
            match found {
                Some(v) => lookup(pv.take(i as int), key@) == Some(v@),
                None => lookup(pv.take(i as int), key@) is None,
            },
    {
        assert(pv.take(i + 1).drop_last() =~= pv.take(i as int));
        assert(pv.take(i + 1).last() == (pairs@[i as int].0@, pairs@[i as int].1@));
        if chars_eq_str(&pairs[i].0, key) {
            found = Some(pairs[i].1.clone());
        }
    }
    assert(pv.take(pairs.len() as int) =~= pv);
    found
}

// ---------------------------------------------------------------------------
// Values
// ---------------------------------------------------------------------------

/// A value that reads as `true`, ignoring ASCII case (`str::eq_ignore_ascii_case`).
pub open spec fn is_true_value(v: Option<Seq<char>>) -> bool {
    match v {
        Some(s) => ascii_lower_seq(s) == "true"@,
        None => false,
    }
}

/// Whether an optional value reads as `true`, ignoring ASCII case.
pub fn parse_bool(value: Option<&String>) -> (r: bool)
    ensures
        r == is_true_value(opt_ref_view(value)),
{
    match value {
        Some(s) => {
            let v = chars_of(s.as_str());
            let lowered = ascii_lowercase(&v);
            chars_eq_str(&lowered, "true")
        },
        None => false,
    }
}

/// The characters of an optional string reference.
pub open spec fn opt_ref_view(s: Option<&String>) -> Option<Seq<char>> {
    match s {
        Some(v) => Some(v@),
        None => None,
    }
}

/// The pieces of a list that are not blank, each trimmed.
pub open spec fn nonblank_trimmed(pieces: Seq<Seq<char>>) -> Seq<Seq<char>>
    decreases pieces.len(),
{
    if pieces.len() == 0 {
        seq![]
    } else if trim(pieces.last()).len() > 0 {
        nonblank_trimmed(pieces.drop_last()).push(trim(pieces.last()))
    } else {
        nonblank_trimmed(pieces.drop_last())
    }
}

/// The categories of a `Categories` value: its `;`-separated items, trimmed,
/// without blank ones.
pub open spec fn categories_of(value: Seq<char>) -> Seq<Seq<char>> {
    nonblank_trimmed(split_on(value, ';'))
}

/// The categories listed in a `Categories` value.
fn parse_categories(value: &Vec<char>) -> (r: Vec<String>)
    ensures
        r.deep_view() == categories_of(value@),
{
    let pieces = split_chars(value, ';');
    let ghost pv = pieces.deep_view();
    let mut r: Vec<String> = Vec::new();
    for i in 0..pieces.len()
        invariant
            pv == pieces.deep_view(),
            r.deep_view() == nonblank_trimmed(pv.take(i as int)),
    {
        assert(pv.take(i + 1).drop_last() =~= pv.take(i as int));
        assert(pieces@[i as int].deep_view() =~= pieces@[i as int]@);
        assert(pv.take(i + 1).last() == pieces@[i as int]@);
        let t = trim_chars(&pieces[i]);
        if t.len() > 0 {
            let s = string_of(&t);
            let ghost before = r.deep_view();
            r.push(s);
            assert(r.deep_view() =~= before.push(t@));
        }
    }
    assert(pv.take(pieces.len() as int) =~= pv);
    r
}

/// The menu group of one category, if it names one.
pub open spec fn category_group(c: Seq<char>) -> Option<Seq<char>> {
    if c == "Settings"@ || c == "DesktopSettings"@ || c == "HardwareSettings"@ {
        Some("Settings"@)
    } else if c == "System"@ || c == "Utility"@ {
        Some("System"@)
    } else if c == "Network"@ || c == "WebBrowser"@ || c == "Email"@ {
        Some("Internet"@)
    } else if c == "Office"@ || c == "WordProcessor"@ || c == "Spreadsheet"@ {
        Some("Office"@)
    } else if c == "Graphics"@ || c == "Photography"@ {
        Some("Graphics"@)
    } else if c == "AudioVideo"@ || c == "Audio"@ || c == "Video"@ {
        Some("Sound & Video"@)
    } else if c == "Development"@ {
        Some("Development"@)
    } else if c == "Game"@ {
        Some("Games"@)
    } else if c == "Education"@ {
        Some("Education"@)
    } else {
        None
    }
}

/// The menu group of a launcher: that of its first category that names one,
/// `Other` when none does.
pub open spec fn broad_group_spec(categories: Seq<Seq<char>>) -> Seq<char>
    decreases categories.len(),
{
    if categories.len() == 0 {
        "Other"@
    } else {
        match category_group(categories[0]) {
            Some(g) => g,
            None => broad_group_spec(categories.drop_first()),
        }
    }
}

/// A category that makes a launcher a control panel.
pub open spec fn is_control_panel_category(c: Seq<char>) -> bool {
    c == "Settings"@ || c == "System"@ || c == "DesktopSettings"@ || c == "HardwareSettings"@
}

/// A launcher is a control panel when one of its categories makes it one.
pub open spec fn is_control_panel_spec(categories: Seq<Seq<char>>) -> bool {
    exists|i: int| 0 <= i < categories.len() && is_control_panel_category(#[trigger] categories[i])
}

/// The menu group of one category.
fn category_group_of(c: &str) -> (r: Option<&'static str>)
    ensures
        match r {
            Some(g) => category_group(c@) == Some(g@),
            None => category_group(c@) is None,
        },
{
    if str_eq(c, "Settings") || str_eq(c, "DesktopSettings") || str_eq(c, "HardwareSettings") {
        Some("Settings")
    } else if str_eq(c, "System") || str_eq(c, "Utility") {
        Some("System")
    } else if str_eq(c, "Network") || str_eq(c, "WebBrowser") || str_eq(c, "Email") {
        Some("Internet")
    } else if str_eq(c, "Office") || str_eq(c, "WordProcessor") || str_eq(c, "Spreadsheet") {
        Some("Office")
    } else if str_eq(c, "Graphics") || str_eq(c, "Photography") {
        Some("Graphics")
    } else if str_eq(c, "AudioVideo") || str_eq(c, "Audio") || str_eq(c, "Video") {
        Some("Sound & Video")
    } else if str_eq(c, "Development") {
        Some("Development")
    } else if str_eq(c, "Game") {
        Some("Games")
    } else if str_eq(c, "Education") {
        Some("Education")
    } else {
        None
    }
}

/// The menu group of a launcher with the given categories.
pub fn broad_group(categories: &Vec<String>) -> (r: String)
    ensures
        r@ == broad_group_spec(categories.deep_view()),
{
    let ghost cv = categories.deep_view();
    for i in 0..categories.len()
        invariant
            cv == categories.deep_view(),
            broad_group_spec(cv) == broad_group_spec(cv.skip(i as int)),
    {
        assert(cv.skip(i as int)[0] == categories@[i as int]@);
        assert(cv.skip(i as int).drop_first() =~= cv.skip(i + 1));
        match category_group_of(categories[i].as_str()) {
            Some(g) => {
                return string_from(g);
            },
            None => {},
        }
    }
    assert(cv.skip(categories.len() as int) =~= Seq::<Seq<char>>::empty());
    string_from("Other")
}

/// Whether a launcher with the given categories is a control panel.
pub fn is_control_panel(categories: &Vec<String>) -> (r: bool)
    ensures
        r == is_control_panel_spec(categories.deep_view()),
{
    let ghost cv = categories.deep_view();
    for i in 0..categories.len()
        invariant
            cv == categories.deep_view(),
            forall|j: int| 0 <= j < i ==> !is_control_panel_category(#[trigger] cv[j]),
    {
        let c = categories[i].as_str();
        if str_eq(c, "Settings") || str_eq(c, "System") || str_eq(c, "DesktopSettings") || str_eq(
            c,
            "HardwareSettings",
        ) {
            assert(is_control_panel_category(cv[i as int]));
            return true;
        }
    }
    false
}

// ---------------------------------------------------------------------------
// A desktop file
// ---------------------------------------------------------------------------

/// The categories of a launcher whose pairs are `pairs`.
pub open spec fn entry_categories(pairs: Seq<(Seq<char>, Seq<char>)>) -> Seq<Seq<char>> {
    match lookup(pairs, "Categories"@) {
        Some(v) => categories_of(v),
        None => seq![],
    }
}

/// The launcher that a desktop file describes, if it shows one: `file_name` is
/// the file's name when it is valid text, `contents` its text. A file is skipped
/// when its `Type` is set to something other than `Application`, when it is
/// `Hidden`, when it has `NoDisplay` and such launchers are not shown, and when
/// it lacks `Name` or `Exec`. The launcher's id is the file name, or its name
/// when the file name is not valid text.
pub open spec fn parse_desktop_spec(
    file_name: Option<Seq<char>>,
    contents: Seq<char>,
    show_no_display: bool,
) -> Option<DesktopAppView> {
    let pairs = entry_pairs(contents);
    let cats = entry_categories(pairs);
    if lookup(pairs, "Type"@) matches Some(t) && t != "Application"@ {
        None
    } else if is_true_value(lookup(pairs, "Hidden"@)) {
        None
    } else if is_true_value(lookup(pairs, "NoDisplay"@)) && !show_no_display {
        None
    } else if lookup(pairs, "Name"@) is None || lookup(pairs, "Exec"@) is None {
        None
    } else {
        let name = lookup(pairs, "Name"@).unwrap();
        Some(
            DesktopAppView {
                id: match file_name {
                    Some(f) => f,
                    None => name,
                },
                name,
                exec_command: lookup(pairs, "Exec"@).unwrap(),
                icon: lookup(pairs, "Icon"@),
                categories: cats,
                group: broad_group_spec(cats),
                is_control_panel: is_control_panel_spec(cats),
            },
        )
    }
}

/// The model of an optional launcher.
pub open spec fn opt_app_view(a: Option<DesktopApp>) -> Option<DesktopAppView> {
    match a {
        Some(x) => Some(x@),
        None => None,
    }
}

/// Whether an optional value reads as `true`.
fn value_is_true(v: &Option<Vec<char>>) -> (r: bool)
    ensures
        r == is_true_value(opt_chars_view(*v)),
{
    match v {
        Some(s) => {
            let lowered = ascii_lowercase(s);
            chars_eq_str(&lowered, "true")
        },
        None => false,
    }
}

/// The characters of an optional character vector.
pub open spec fn opt_chars_view(v: Option<Vec<char>>) -> Option<Seq<char>> {
    match v {
        Some(s) => Some(s@),
        None => None,
    }
}

/// The launcher described by a desktop file with the given name and text, if the
/// file shows one under `config`.
pub fn parse_desktop_file(file_name: Option<&str>, contents: &str, config: &PanelConfig) -> (r:
    Option<DesktopApp>)
    ensures
        opt_app_view(r) == parse_desktop_spec(
            crate::config::opt_str_view(file_name),
            contents@,
            config.applications.show_no_display,
        ),
{
    let pairs = read_entry_pairs(contents);
    let ghost pv = pairs_view(pairs@);
    let typ = lookup_value(&pairs, "Type");
    match &typ {
        Some(t) => {
            if !chars_eq_str(t, "Application") {
                return None;
            }
        },
        None => {},
    }
    let hidden = lookup_value(&pairs, "Hidden");
    if value_is_true(&hidden) {
        return None;
    }
    let no_display = lookup_value(&pairs, "NoDisplay");
    if value_is_true(&no_display) && !config.applications.show_no_display {
        return None;
    }
    let name = match lookup_value(&pairs, "Name") {
        Some(n) => n,
        None => {
            return None;
        },
    };
    let exec_line = match lookup_value(&pairs, "Exec") {
        Some(e) => e,
        None => {
            return None;
        },
    };
    let categories = match lookup_value(&pairs, "Categories") {
        Some(c) => parse_categories(&c),
        None => {
            let empty: Vec<String> = Vec::new();
            assert(empty.deep_view() =~= Seq::<Seq<char>>::empty());
            empty
        },
    };
    let group = broad_group(&categories);
    let control = is_control_panel(&categories);
    let id = match file_name {
        Some(f) => string_from(f),
        None => string_of(&name),
    };
    let icon = match lookup_value(&pairs, "Icon") {
        Some(i) => Some(string_of(&i)),
        None => None,
    };
    Some(
        DesktopApp {
            id,
            name: string_of(&name),
            exec_command: string_of(&exec_line),
            icon,
            categories,
            group,
            is_control_panel: control,
        },
    )
}

// ---------------------------------------------------------------------------
// The launcher list
// ---------------------------------------------------------------------------

/// A desktop file found while scanning the launcher directories: its name, when
/// that is valid text, and its contents.
#[derive(Debug, Clone)]
pub struct DesktopFile {
    pub file_name: Option<String>,
    pub contents: String,
}

/// The launchers that `files` describe, in the order of the files.
pub open spec fn parsed_apps(files: Seq<DesktopFile>, show_no_display: bool) -> Seq<DesktopAppView>
    decreases files.len(),
{
    if files.len() == 0 {
        seq![]
    } else {
        let rest = parsed_apps(files.drop_last(), show_no_display);
        match parse_desktop_spec(
            opt_string_view(files.last().file_name),
            files.last().contents@,
            show_no_display,
        ) {
            Some(a) => rest.push(a),
            None => rest,
        }
    }
}

/// Some launcher of `s` has the id `id`.
pub open spec fn has_id(s: Seq<DesktopAppView>, id: Seq<char>) -> bool {
    exists|j: int| 0 <= j < s.len() && (#[trigger] s[j]).id == id
}

/// `apps` with every launcher whose id an earlier launcher already has dropped:
/// the first launcher with a given id wins.
pub open spec fn first_by_id(apps: Seq<DesktopAppView>) -> Seq<DesktopAppView>
    decreases apps.len(),
{
    if apps.len() == 0 {
        seq![]
    } else {
        let d = first_by_id(apps.drop_last());
        if has_id(d, apps.last().id) {
            d
        } else {
            d.push(apps.last())
        }
    }
}

/// No two launchers of `s` share an id.
pub open spec fn unique_ids(s: Seq<DesktopAppView>) -> bool {
    forall|i: int, j: int| 0 <= i < s.len() && 0 <= j < s.len() && i != j ==> (#[trigger] s[i]).id != (#[trigger] s[j]).id
}

/// The launchers that `first_by_id` keeps have distinct ids.
pub proof fn lemma_first_by_id_unique(apps: Seq<DesktopAppView>)
    ensures
        unique_ids(first_by_id(apps)),
    decreases apps.len(),
{
    if apps.len() > 0 {
        lemma_first_by_id_unique(apps.drop_last());
        let d = first_by_id(apps.drop_last());
        if !has_id(d, apps.last().id) {
            let e = d.push(apps.last());
            assert forall|i: int, j: int| 0 <= i < e.len() && 0 <= j < e.len() && i != j implies (#[trigger] e[i]).id != (#[trigger] e[j]).id by {
                if i == d.len() {
                    assert(d[j] == e[j]);
                } else if j == d.len() {
                    assert(d[i] == e[i]);
                }
            }
        }
    }
}

/// Lower-case mapping of text as `str::to_lowercase` performs it (full Unicode
/// case mapping).
pub uninterp spec fn unicode_lowercase(s: Seq<char>) -> Seq<char>;

/// `s` in lower case (`str::to_lowercase`).
#[verifier::external_body]
fn to_lowercase(s: &str) -> (r: String)
    ensures
        r@ == unicode_lowercase(s@),
{
    s.to_lowercase()
}

/// The key by which the launcher list is ordered: the group, then the name in
/// lower case, then the id.
pub type SortKey = (Seq<char>, Seq<char>, Seq<char>);

/// The sort key of a launcher.
pub open spec fn sort_key(a: DesktopAppView) -> SortKey {
    (a.group, unicode_lowercase(a.name), a.id)
}

/// Lexicographic order on sort keys.
pub open spec fn key_lt(a: SortKey, b: SortKey) -> bool {
    ||| seq_lt(a.0, b.0)
    ||| a.0 == b.0 && seq_lt(a.1, b.1)
    ||| a.0 == b.0 && a.1 == b.1 && seq_lt(a.2, b.2)
}

/// The order of sort keys is irreflexive, asymmetric and transitive, and total
/// on different keys.
pub proof fn lemma_key_lt_order(a: SortKey, b: SortKey, c: SortKey)
    ensures
        !key_lt(a, a),
        key_lt(a, b) ==> !key_lt(b, a),
        key_lt(a, b) && key_lt(b, c) ==> key_lt(a, c),
        a != b ==> key_lt(a, b) || key_lt(b, a),
{
    lemma_seq_lt_irreflexive(a.0);
    lemma_seq_lt_irreflexive(a.1);
    lemma_seq_lt_irreflexive(a.2);
    if key_lt(a, b) && key_lt(b, c) {
        if seq_lt(a.0, b.0) && seq_lt(b.0, c.0) {
            lemma_seq_lt_transitive(a.0, b.0, c.0);
        }
        if seq_lt(a.1, b.1) && seq_lt(b.1, c.1) {
            lemma_seq_lt_transitive(a.1, b.1, c.1);
        }
        if seq_lt(a.2, b.2) && seq_lt(b.2, c.2) {
            lemma_seq_lt_transitive(a.2, b.2, c.2);
        }
    }
    if key_lt(a, b) {
        if seq_lt(a.0, b.0) {
            lemma_seq_lt_asymmetric(a.0, b.0);
        }
        if seq_lt(a.1, b.1) {
            lemma_seq_lt_asymmetric(a.1, b.1);
        }
        if seq_lt(a.2, b.2) {
            lemma_seq_lt_asymmetric(a.2, b.2);
        }
    }
    if a != b {
        if a.0 != b.0 {
            lemma_seq_lt_total(a.0, b.0);
        } else if a.1 != b.1 {
            lemma_seq_lt_total(a.1, b.1);
        } else {
            lemma_seq_lt_total(a.2, b.2);
        }
    }
}

/// Launchers are in strictly increasing order of their sort keys.
pub open spec fn strictly_sorted(s: Seq<DesktopAppView>) -> bool {
    forall|i: int, j: int| 0 <= i < j < s.len() ==> key_lt(sort_key(#[trigger] s[i]), sort_key(#[trigger] s[j]))
}

/// The launchers of `r` are those of `d`, each once, in key order.
pub open spec fn is_sorted_arrangement(r: Seq<DesktopAppView>, d: Seq<DesktopAppView>) -> bool {
    &&& r.len() == d.len()
    &&& strictly_sorted(r)
    &&& forall|x: DesktopAppView| d.contains(x) <==> r.contains(x)
}

/// The sort key of a launcher, computed.
struct ExecKey {
    group: Vec<char>,
    lower_name: Vec<char>,
    id: Vec<char>,
}

/// The model of a computed sort key.
spec fn key_view(k: ExecKey) -> SortKey {
    (k.group@, k.lower_name@, k.id@)
}

/// Computes the sort key of a launcher.
fn key_of(a: &DesktopApp) -> (k: ExecKey)
    ensures
        key_view(k) == sort_key(a@),
{
    let lower = to_lowercase(a.name.as_str());
    ExecKey {
        group: chars_of(a.group.as_str()),
        lower_name: chars_of(lower.as_str()),
        id: chars_of(a.id.as_str()),
    }
}

/// Whether `a` comes before `b`.
fn key_less(a: &ExecKey, b: &ExecKey) -> (r: bool)
    ensures
        r == key_lt(key_view(*a), key_view(*b)),
{
    let c0 = compare_chars(&a.group, &b.group);
    if c0 != 0 {
        return c0 == -1;
    }
    let c1 = compare_chars(&a.lower_name, &b.lower_name);
    if c1 != 0 {
        return c1 == -1;
    }
    compare_chars(&a.id, &b.id) == -1
}

/// Inserts `app`, whose id no launcher of `r` has, at its place in the sorted
/// list `r`; `keys` holds the sort keys of `r`.
fn insert_sorted(r: &mut Vec<DesktopApp>, keys: &mut Vec<ExecKey>, app: DesktopApp)
    requires
        strictly_sorted(old(r).deep_view()),
        old(keys)@.len() == old(r)@.len(),
        forall|j: int| 0 <= j < old(r)@.len() ==> key_view(#[trigger] old(keys)@[j]) == sort_key(old(r)@[j]@),
        forall|j: int| 0 <= j < old(r)@.len() ==> (#[trigger] old(r)@[j]).id@ != app.id@,
    ensures
        strictly_sorted(final(r).deep_view()),
        final(keys)@.len() == final(r)@.len(),
        forall|j: int| 0 <= j < final(r)@.len() ==> key_view(#[trigger] final(keys)@[j]) == sort_key(final(r)@[j]@),
        exists|p: int| 0 <= p <= old(r)@.len() && final(r).deep_view() == old(r).deep_view().insert(p, app@),
{
    let ghost rv = r.deep_view();
    let k = key_of(&app);
    let n = r.len();
    let mut p: usize = 0;
    while p < n && key_less(&keys[p], &k)
        invariant
            n == r@.len(),
            n == keys@.len(),
            p <= n,
            forall|j: int| 0 <= j < p ==> key_lt(key_view(#[trigger] keys@[j]), key_view(k)),
        decreases n - p,
    {
        p = p + 1;
    }
    proof {
        assert forall|j: int| p <= j < n implies key_lt(key_view(k), key_view(#[trigger] keys@[j])) by {
            assert(key_view(keys@[p as int]) != key_view(k)) by {
                assert(r@[p as int].id@ != app.id@);
            }
            lemma_key_lt_order(key_view(keys@[p as int]), key_view(k), key_view(k));
            lemma_key_lt_order(key_view(k), key_view(keys@[p as int]), key_view(keys@[j]));
            if j > p {
                assert(rv[p as int] == r@[p as int]@);
                assert(rv[j] == r@[j]@);
            }
        }
    }
    let ghost av = app@;
    r.insert(p, app);
    keys.insert(p, k);
    proof {
        let e = rv.insert(p as int, av);
        assert(r.deep_view() =~= e);
        assert forall|i: int, j: int| 0 <= i < j < e.len() implies key_lt(sort_key(#[trigger] e[i]), sort_key(#[trigger] e[j])) by {
            if i < p && j < p {
            } else if i < p && j == p {
                assert(e[i] == rv[i]);
                assert(keys@[i] == old(keys)@[i]);
            } else if i < p && j > p {
                assert(e[i] == rv[i]);
                assert(e[j] == rv[j - 1]);
            } else if i == p {
                assert(e[j] == rv[j - 1]);
                assert(key_view(old(keys)@[j - 1]) == sort_key(rv[j - 1]));
            } else {
                assert(e[i] == rv[i - 1]);
                assert(e[j] == rv[j - 1]);
            }
        }
        assert forall|j: int| 0 <= j < r@.len() implies key_view(#[trigger] keys@[j]) == sort_key(r@[j]@) by {
            if j < p {
                assert(r@[j] == old(r)@[j]);
            } else if j > p {
                assert(r@[j] == old(r)@[j - 1]);
            }
        }
    }
}

/// The launchers to show, given the desktop files found in the launcher
/// directories in scan order: each file is parsed with `config`, the first
/// launcher with a given id wins, and the result is ordered by group, then by
/// lower-case name, then by id.
pub fn scan_desktop_apps(config: &PanelConfig, files: &Vec<DesktopFile>) -> (r: Vec<DesktopApp>)
    ensures
        is_sorted_arrangement(
            r.deep_view(),
            first_by_id(parsed_apps(files@, config.applications.show_no_display)),
        ),
        unique_ids(r.deep_view()),
{
    let ghost show = config.applications.show_no_display;
    // Parse every file.
    let mut apps: Vec<DesktopApp> = Vec::new();
    for i in 0..files.len()
        invariant
            show == config.applications.show_no_display,
            apps.deep_view() == parsed_apps(files@.take(i as int), show),
    {
        assert(files@.take(i + 1).drop_last() =~= files@.take(i as int));
        let f = &files[i];
        let name = match &f.file_name {
            Some(n) => Some(n.as_str()),
            None => None,
        };
        assert(crate::config::opt_str_view(name) == opt_string_view(f.file_name));
        match parse_desktop_file(name, f.contents.as_str(), config) {
            Some(a) => {
                let ghost before = apps.deep_view();
                let ghost av = a@;
                apps.push(a);
                assert(apps.deep_view() =~= before.push(av));
            },
            None => {},
        }
    }
    assert(files@.take(files.len() as int) =~= files@);
    let ghost all = apps.deep_view();
    // Keep the first launcher of each id.
    let mut kept: Vec<DesktopApp> = Vec::new();
    let mut i: usize = 0;
    while i < apps.len()
        invariant
            all == apps.deep_view(),
            i <= apps.len(),
            kept.deep_view() == first_by_id(all.take(i as int)),
        decreases apps.len() - i,
    {
        assert(all.take(i + 1).drop_last() =~= all.take(i as int));
        let ghost kv = kept.deep_view();
        let mut seen = false;
        for j in 0..kept.len()
            invariant
                kv == kept.deep_view(),
                i < apps.len(),
                seen == exists|m: int| 0 <= m < j && (#[trigger] kv[m]).id == apps@[i as int]@.id,
        {
            if kept[j].id == apps[i].id {
                seen = true;
            }
            assert(seen == exists|m: int| 0 <= m < j + 1 && (#[trigger] kv[m]).id == apps@[i as int]@.id) by {
                if kept@[j as int].id@ == apps@[i as int].id@ {
                    assert(kv[j as int].id == apps@[i as int]@.id);
                }
            }
        }
        assert(seen == has_id(kv, all.take(i + 1).last().id));
        if !seen {
            let a = apps[i].clone_app();
            let ghost before = kept.deep_view();
            kept.push(a);
            assert(kept.deep_view() =~= before.push(all[i as int]));
        }
        i = i + 1;
    }
    assert(all.take(apps.len() as int) =~= all);
    let ghost d = kept.deep_view();
    let total = kept.len();
    assert(d.len() == total);
    proof {
        lemma_first_by_id_unique(all);
    }
    // Order them.
    let mut sorted: Vec<DesktopApp> = Vec::new();
    let mut keys: Vec<ExecKey> = Vec::new();
    let mut rest = kept;
    let mut taken: usize = 0;
    // Reverse the list so that `pop` yields the launchers in order.
    let mut remaining: Vec<DesktopApp> = Vec::new();
    while rest.len() > 0
        invariant
            remaining.deep_view() + rest.deep_view().reverse() == d.reverse(),
        decreases rest.len(),
    {
        let ghost rv = rest.deep_view();
        let x = rest.pop().unwrap();
        let ghost remv = remaining.deep_view();
        let ghost xv = x@;
        remaining.push(x);
        assert(rest.deep_view() =~= rv.drop_last());
        assert(rv.reverse() =~= seq![xv] + rv.drop_last().reverse());
        assert(remaining.deep_view() =~= remv.push(xv));
        assert(remaining.deep_view() + rest.deep_view().reverse() =~= remv + rv.reverse());
    }
    assert(remaining.deep_view() =~= d.reverse());
    while remaining.len() > 0
        invariant
            remaining.deep_view().len() + taken == d.len(),
            d.len() == total,
            remaining.deep_view() == d.skip(taken as int).reverse(),
            unique_ids(d),
            strictly_sorted(sorted.deep_view()),
            keys@.len() == sorted@.len(),
            forall|j: int| 0 <= j < sorted@.len() ==> key_view(#[trigger] keys@[j]) == sort_key(sorted@[j]@),
            sorted.deep_view().len() == taken,
            forall|k: int| 0 <= k < taken ==> sorted.deep_view().contains(#[trigger] d[k]),
            forall|x: DesktopAppView| sorted.deep_view().contains(x) ==> d.take(taken as int).contains(x),
        decreases remaining.len(),
    {
        let ghost remv = remaining.deep_view();
        let ghost sv = sorted.deep_view();
        let x = remaining.pop().unwrap();
        assert(remv.last() == d[taken as int]) by {
            assert(d.skip(taken as int).reverse().last() == d.skip(taken as int)[0]);
        }
        assert(x@ == d[taken as int]);
        proof {
            assert forall|j: int| 0 <= j < sorted@.len() implies (#[trigger] sorted@[j]).id@ != x.id@ by {
                assert(sv[j] == sorted@[j]@);
                assert(sv.contains(sv[j]));
                assert(d.take(taken as int).contains(sv[j]));
                let m = choose|m: int| 0 <= m < taken && d.take(taken as int)[m] == sv[j];
                assert(d[m] == sv[j]);
            }
        }
        let ghost xv = x@;
        insert_sorted(&mut sorted, &mut keys, x);
        proof {
            let p = choose|p: int| 0 <= p <= sv.len() && sorted.deep_view() == sv.insert(p, xv);
            sv.insert_ensures(p, xv);
            let nv = sorted.deep_view();
            assert forall|k: int| 0 <= k < taken + 1 implies nv.contains(#[trigger] d[k]) by {
                if k == taken {
                    assert(nv[p] == xv);
                } else {
                    assert(sv.contains(d[k]));
                    let m = choose|m: int| 0 <= m < sv.len() && sv[m] == d[k];
                    if m < p {
                        assert(nv[m] == d[k]);
                    } else {
                        assert(nv[m + 1] == d[k]);
                    }
                }
            }
            assert forall|y: DesktopAppView| nv.contains(y) implies d.take(taken + 1).contains(y) by {
                let m = choose|m: int| 0 <= m < nv.len() && nv[m] == y;
                if m == p {
                    assert(d.take(taken + 1)[taken as int] == y);
                } else {
                    let q = if m < p { m } else { m - 1 };
                    assert(sv[q] == y);
                    assert(sv.contains(y));
                    let t = choose|t: int| 0 <= t < taken && d.take(taken as int)[t] == y;
                    assert(d.take(taken + 1)[t] == y);
                }
            }
            assert(d.skip(taken + 1).reverse() =~= remv.drop_last());
        }
        taken = taken + 1;
    }
    proof {
        let sv = sorted.deep_view();
        assert(d.take(d.len() as int) =~= d);
        assert forall|x: DesktopAppView| d.contains(x) implies sv.contains(x) by {
            let k = choose|k: int| 0 <= k < d.len() && d[k] == x;
            assert(sv.contains(d[k]));
        }
        lemma_arrangement_unique_ids(sv, d);
    }
    sorted
}

impl DesktopApp {
    /// A copy of this launcher.
    pub fn clone_app(&self) -> (r: DesktopApp)
        ensures
            r@ == self@,
    {
        let mut categories: Vec<String> = Vec::new();
        for i in 0..self.categories.len()
            invariant
                categories.deep_view() == self.categories.deep_view().take(i as int),
        {
            let ghost before = categories.deep_view();
            categories.push(self.categories[i].clone());
            assert(categories.deep_view() =~= before.push(self.categories@[i as int]@));
            assert(self.categories.deep_view().take(i + 1) =~= self.categories.deep_view().take(
                i as int,
            ).push(self.categories@[i as int]@));
        }
        assert(self.categories.deep_view().take(self.categories.len() as int)
            =~= self.categories.deep_view());
        DesktopApp {
            id: self.id.clone(),
            name: self.name.clone(),
            exec_command: self.exec_command.clone(),
            icon: match &self.icon {
                Some(i) => Some(i.clone()),
                None => None,
            },
            categories,
            group: self.group.clone(),
            is_control_panel: self.is_control_panel,
        }
    }
}

/// A strictly ordered list drawn from launchers with distinct ids holds each
/// id once.
pub proof fn lemma_arrangement_unique_ids(r: Seq<DesktopAppView>, d: Seq<DesktopAppView>)
    requires
        strictly_sorted(r),
        forall|x: DesktopAppView| r.contains(x) ==> d.contains(x),
        unique_ids(d),
    ensures
        unique_ids(r),
{
    assert forall|i: int, j: int| 0 <= i < r.len() && 0 <= j < r.len() && i != j implies (#[trigger] r[i]).id != (#[trigger] r[j]).id by {
        let (a, b) = if i < j { (i, j) } else { (j, i) };
        assert(key_lt(sort_key(r[a]), sort_key(r[b])));
        lemma_key_lt_order(sort_key(r[a]), sort_key(r[b]), sort_key(r[b]));
        assert(r[a] != r[b]);
        assert(r.contains(r[a]));
        assert(r.contains(r[b]));
        let p = choose|p: int| 0 <= p < d.len() && d[p] == r[a];
        let q = choose|q: int| 0 <= q < d.len() && d[q] == r[b];
        assert(p != q);
    }
}

/// Every launcher that `first_by_id` keeps is one of the given launchers, and
/// every given id is kept.
pub proof fn lemma_first_by_id_keeps_ids(apps: Seq<DesktopAppView>)
    ensures
        forall|x: DesktopAppView| first_by_id(apps).contains(x) ==> apps.contains(x),
        forall|i: int| 0 <= i < apps.len() ==> has_id(first_by_id(apps), #[trigger] apps[i].id),
    decreases apps.len(),
{
    if apps.len() > 0 {
        let init = apps.drop_last();
        lemma_first_by_id_keeps_ids(init);
        let d = first_by_id(init);
        let e = first_by_id(apps);
        assert forall|x: DesktopAppView| e.contains(x) implies apps.contains(x) by {
            let k = choose|k: int| 0 <= k < e.len() && e[k] == x;
            if k < d.len() {
                assert(d[k] == x);
                assert(d.contains(x));
                assert(init.contains(x));
                let m = choose|m: int| 0 <= m < init.len() && init[m] == x;
                assert(apps[m] == x);
            } else {
                assert(apps[apps.len() - 1] == x);
            }
        }
        assert forall|i: int| 0 <= i < apps.len() implies has_id(e, #[trigger] apps[i].id) by {
            if i < init.len() {
                assert(init[i] == apps[i]);
                assert(has_id(d, init[i].id));
                let j = choose|j: int| 0 <= j < d.len() && (#[trigger] d[j]).id == init[i].id;
                assert(e[j] == d[j]);
            } else if !has_id(d, apps.last().id) {
                assert(e[d.len() as int] == apps.last());
            }
        }
    }
}

/// A category by which the menus group launchers: one of the freedesktop main
/// categories or settings categories that the menus know.
pub open spec fn is_grouping_category(c: Seq<char>) -> bool {
    ||| c == "Settings"@ || c == "DesktopSettings"@ || c == "HardwareSettings"@
    ||| c == "System"@ || c == "Utility"@
    ||| c == "Network"@ || c == "WebBrowser"@ || c == "Email"@
    ||| c == "Office"@ || c == "WordProcessor"@ || c == "Spreadsheet"@
    ||| c == "Graphics"@ || c == "Photography"@
    ||| c == "AudioVideo"@ || c == "Audio"@ || c == "Video"@
    ||| c == "Development"@
    ||| c == "Game"@
    ||| c == "Education"@
}

/// Categories before the first grouping one do not decide the group.
proof fn lemma_group_from(cats: Seq<Seq<char>>, k: int)
    requires
        0 <= k <= cats.len(),
        forall|j: int| 0 <= j < k ==> !is_grouping_category(#[trigger] cats[j]),
    ensures
        broad_group_spec(cats) == broad_group_spec(cats.skip(k)),
    decreases k,
{
    if k > 0 {
        assert(!is_grouping_category(cats[0]));
        assert(category_group(cats[0]) is None);
        let rest = cats.drop_first();
        assert forall|j: int| 0 <= j < k - 1 implies !is_grouping_category(#[trigger] rest[j]) by {
            assert(rest[j] == cats[j + 1]);
        }
        lemma_group_from(rest, k - 1);
        assert(rest.skip(k - 1) =~= cats.skip(k));
    } else {
        assert(cats.skip(0) =~= cats);
    }
}

/// The menu group of a launcher is decided by its first grouping category:
/// Settings, DesktopSettings and HardwareSettings go to `Settings`; System and
/// Utility to `System`; Network, WebBrowser and Email to `Internet`; Office,
/// WordProcessor and Spreadsheet to `Office`; Graphics and Photography to
/// `Graphics`; AudioVideo, Audio and Video to `Sound & Video`; Development to
/// `Development`; Game to `Games`; Education to `Education`. A launcher without
/// a grouping category is in `Other`.
pub proof fn lemma_menu_group_by_first_category(cats: Seq<Seq<char>>, k: int)
    requires
        0 <= k <= cats.len(),
        forall|j: int| 0 <= j < k ==> !is_grouping_category(#[trigger] cats[j]),
        k < cats.len() ==> is_grouping_category(cats[k]),
    ensures
        k == cats.len() ==> broad_group_spec(cats) == "Other"@,
        k < cats.len() ==> ({
            let c = cats[k];
            let g = broad_group_spec(cats);
            &&& (c == "Settings"@ || c == "DesktopSettings"@ || c == "HardwareSettings"@) ==> g
                == "Settings"@
            &&& (c == "System"@ || c == "Utility"@) ==> g == "System"@
            &&& (c == "Network"@ || c == "WebBrowser"@ || c == "Email"@) ==> g == "Internet"@
            &&& (c == "Office"@ || c == "WordProcessor"@ || c == "Spreadsheet"@) ==> g == "Office"@
            &&& (c == "Graphics"@ || c == "Photography"@) ==> g == "Graphics"@
            &&& (c == "AudioVideo"@ || c == "Audio"@ || c == "Video"@) ==> g == "Sound & Video"@
            &&& c == "Development"@ ==> g == "Development"@
            &&& c == "Game"@ ==> g == "Games"@
            &&& c == "Education"@ ==> g == "Education"@
        }),
{
    lemma_group_from(cats, k);
    let rest = cats.skip(k);
    if k == cats.len() {
        assert(rest.len() == 0);
    } else {
        assert(rest[0] == cats[k]);
        reveal_strlit("Settings");
        reveal_strlit("DesktopSettings");
        reveal_strlit("HardwareSettings");
        reveal_strlit("System");
        reveal_strlit("Utility");
        reveal_strlit("Network");
        reveal_strlit("WebBrowser");
        reveal_strlit("Email");
        reveal_strlit("Office");
        reveal_strlit("WordProcessor");
        reveal_strlit("Spreadsheet");
        reveal_strlit("Graphics");
        reveal_strlit("Photography");
        reveal_strlit("AudioVideo");
        reveal_strlit("Audio");
        reveal_strlit("Video");
        reveal_strlit("Development");
        reveal_strlit("Game");
        reveal_strlit("Education");
        assert("DesktopSettings"@.len() != "Settings"@.len());
        assert("DesktopSettings"@ != "Settings"@);
        assert("HardwareSettings"@.len() != "Settings"@.len());
        assert("HardwareSettings"@ != "Settings"@);
        assert("HardwareSettings"@.len() != "DesktopSettings"@.len());
        assert("HardwareSettings"@ != "DesktopSettings"@);
        assert("System"@.len() != "Settings"@.len());
        assert("System"@ != "Settings"@);
        assert("System"@.len() != "DesktopSettings"@.len());
        assert("System"@ != "DesktopSettings"@);
        assert("System"@.len() != "HardwareSettings"@.len());
        assert("System"@ != "HardwareSettings"@);
        assert("Utility"@.len() != "Settings"@.len());
        assert("Utility"@ != "Settings"@);
        assert("Utility"@.len() != "DesktopSettings"@.len());
        assert("Utility"@ != "DesktopSettings"@);
        assert("Utility"@.len() != "HardwareSettings"@.len());
        assert("Utility"@ != "HardwareSettings"@);
        assert("Utility"@.len() != "System"@.len());
        assert("Utility"@ != "System"@);
        assert("Network"@.len() != "Settings"@.len());
        assert("Network"@ != "Settings"@);
        assert("Network"@.len() != "DesktopSettings"@.len());
        assert("Network"@ != "DesktopSettings"@);
        assert("Network"@.len() != "HardwareSettings"@.len());
        assert("Network"@ != "HardwareSettings"@);
        assert("Network"@.len() != "System"@.len());
        assert("Network"@ != "System"@);
        assert("Network"@[0] != "Utility"@[0]);
        assert("Network"@ != "Utility"@);
        assert("WebBrowser"@.len() != "Settings"@.len());
        assert("WebBrowser"@ != "Settings"@);
        assert("WebBrowser"@.len() != "DesktopSettings"@.len());
        assert("WebBrowser"@ != "DesktopSettings"@);
        assert("WebBrowser"@.len() != "HardwareSettings"@.len());
        assert("WebBrowser"@ != "HardwareSettings"@);
        assert("WebBrowser"@.len() != "System"@.len());
        assert("WebBrowser"@ != "System"@);
        assert("WebBrowser"@.len() != "Utility"@.len());
        assert("WebBrowser"@ != "Utility"@);
        assert("WebBrowser"@.len() != "Network"@.len());
        assert("WebBrowser"@ != "Network"@);
        assert("Email"@.len() != "Settings"@.len());
        assert("Email"@ != "Settings"@);
        assert("Email"@.len() != "DesktopSettings"@.len());
        assert("Email"@ != "DesktopSettings"@);
        assert("Email"@.len() != "HardwareSettings"@.len());
        assert("Email"@ != "HardwareSettings"@);
        assert("Email"@.len() != "System"@.len());
        assert("Email"@ != "System"@);
        assert("Email"@.len() != "Utility"@.len());
        assert("Email"@ != "Utility"@);
        assert("Email"@.len() != "Network"@.len());
        assert("Email"@ != "Network"@);
        assert("Email"@.len() != "WebBrowser"@.len());
        assert("Email"@ != "WebBrowser"@);
        assert("Office"@.len() != "Settings"@.len());
        assert("Office"@ != "Settings"@);
        assert("Office"@.len() != "DesktopSettings"@.len());
        assert("Office"@ != "DesktopSettings"@);
        assert("Office"@.len() != "HardwareSettings"@.len());
        assert("Office"@ != "HardwareSettings"@);
        assert("Office"@[0] != "System"@[0]);
        assert("Office"@ != "System"@);
        assert("Office"@.len() != "Utility"@.len());
        assert("Office"@ != "Utility"@);
        assert("Office"@.len() != "Network"@.len());
        assert("Office"@ != "Network"@);
        assert("Office"@.len() != "WebBrowser"@.len());
        assert("Office"@ != "WebBrowser"@);
        assert("Office"@.len() != "Email"@.len());
        assert("Office"@ != "Email"@);
        assert("WordProcessor"@.len() != "Settings"@.len());
        assert("WordProcessor"@ != "Settings"@);
        assert("WordProcessor"@.len() != "DesktopSettings"@.len());
        assert("WordProcessor"@ != "DesktopSettings"@);
        assert("WordProcessor"@.len() != "HardwareSettings"@.len());
        assert("WordProcessor"@ != "HardwareSettings"@);
        assert("WordProcessor"@.len() != "System"@.len());
        assert("WordProcessor"@ != "System"@);
        assert("WordProcessor"@.len() != "Utility"@.len());
        assert("WordProcessor"@ != "Utility"@);
        assert("WordProcessor"@.len() != "Network"@.len());
        assert("WordProcessor"@ != "Network"@);
        assert("WordProcessor"@.len() != "WebBrowser"@.len());
        assert("WordProcessor"@ != "WebBrowser"@);
        assert("WordProcessor"@.len() != "Email"@.len());
        assert("WordProcessor"@ != "Email"@);
        assert("WordProcessor"@.len() != "Office"@.len());
        assert("WordProcessor"@ != "Office"@);
        assert("Spreadsheet"@.len() != "Settings"@.len());
        assert("Spreadsheet"@ != "Settings"@);
        assert("Spreadsheet"@.len() != "DesktopSettings"@.len());
        assert("Spreadsheet"@ != "DesktopSettings"@);
        assert("Spreadsheet"@.len() != "HardwareSettings"@.len());
        assert("Spreadsheet"@ != "HardwareSettings"@);
        assert("Spreadsheet"@.len() != "System"@.len());
        assert("Spreadsheet"@ != "System"@);
        assert("Spreadsheet"@.len() != "Utility"@.len());
        assert("Spreadsheet"@ != "Utility"@);
        assert("Spreadsheet"@.len() != "Network"@.len());
        assert("Spreadsheet"@ != "Network"@);
        assert("Spreadsheet"@.len() != "WebBrowser"@.len());
        assert("Spreadsheet"@ != "WebBrowser"@);
        assert("Spreadsheet"@.len() != "Email"@.len());
        assert("Spreadsheet"@ != "Email"@);
        assert("Spreadsheet"@.len() != "Office"@.len());
        assert("Spreadsheet"@ != "Office"@);
        assert("Spreadsheet"@.len() != "WordProcessor"@.len());
        assert("Spreadsheet"@ != "WordProcessor"@);
        assert("Graphics"@[0] != "Settings"@[0]);
        assert("Graphics"@ != "Settings"@);
        assert("Graphics"@.len() != "DesktopSettings"@.len());
        assert("Graphics"@ != "DesktopSettings"@);
        assert("Graphics"@.len() != "HardwareSettings"@.len());
        assert("Graphics"@ != "HardwareSettings"@);
        assert("Graphics"@.len() != "System"@.len());
        assert("Graphics"@ != "System"@);
        assert("Graphics"@.len() != "Utility"@.len());
        assert("Graphics"@ != "Utility"@);
        assert("Graphics"@.len() != "Network"@.len());
        assert("Graphics"@ != "Network"@);
        assert("Graphics"@.len() != "WebBrowser"@.len());
        assert("Graphics"@ != "WebBrowser"@);
        assert("Graphics"@.len() != "Email"@.len());
        assert("Graphics"@ != "Email"@);
        assert("Graphics"@.len() != "Office"@.len());
        assert("Graphics"@ != "Office"@);
        assert("Graphics"@.len() != "WordProcessor"@.len());
        assert("Graphics"@ != "WordProcessor"@);
        assert("Graphics"@.len() != "Spreadsheet"@.len());
        assert("Graphics"@ != "Spreadsheet"@);
        assert("Photography"@.len() != "Settings"@.len());
        assert("Photography"@ != "Settings"@);
        assert("Photography"@.len() != "DesktopSettings"@.len());
        assert("Photography"@ != "DesktopSettings"@);
        assert("Photography"@.len() != "HardwareSettings"@.len());
        assert("Photography"@ != "HardwareSettings"@);
        assert("Photography"@.len() != "System"@.len());
        assert("Photography"@ != "System"@);
        assert("Photography"@.len() != "Utility"@.len());
        assert("Photography"@ != "Utility"@);
        assert("Photography"@.len() != "Network"@.len());
        assert("Photography"@ != "Network"@);
        assert("Photography"@.len() != "WebBrowser"@.len());
        assert("Photography"@ != "WebBrowser"@);
        assert("Photography"@.len() != "Email"@.len());
        assert("Photography"@ != "Email"@);
        assert("Photography"@.len() != "Office"@.len());
        assert("Photography"@ != "Office"@);
        assert("Photography"@.len() != "WordProcessor"@.len());
        assert("Photography"@ != "WordProcessor"@);
        assert("Photography"@[0] != "Spreadsheet"@[0]);
        assert("Photography"@ != "Spreadsheet"@);
        assert("Photography"@.len() != "Graphics"@.len());
        assert("Photography"@ != "Graphics"@);
        assert("AudioVideo"@.len() != "Settings"@.len());
        assert("AudioVideo"@ != "Settings"@);
        assert("AudioVideo"@.len() != "DesktopSettings"@.len());
        assert("AudioVideo"@ != "DesktopSettings"@);
        assert("AudioVideo"@.len() != "HardwareSettings"@.len());
        assert("AudioVideo"@ != "HardwareSettings"@);
        assert("AudioVideo"@.len() != "System"@.len());
        assert("AudioVideo"@ != "System"@);
        assert("AudioVideo"@.len() != "Utility"@.len());
        assert("AudioVideo"@ != "Utility"@);
        assert("AudioVideo"@.len() != "Network"@.len());
        assert("AudioVideo"@ != "Network"@);
        assert("AudioVideo"@[0] != "WebBrowser"@[0]);
        assert("AudioVideo"@ != "WebBrowser"@);
        assert("AudioVideo"@.len() != "Email"@.len());
        assert("AudioVideo"@ != "Email"@);
        assert("AudioVideo"@.len() != "Office"@.len());
        assert("AudioVideo"@ != "Office"@);
        assert("AudioVideo"@.len() != "WordProcessor"@.len());
        assert("AudioVideo"@ != "WordProcessor"@);
        assert("AudioVideo"@.len() != "Spreadsheet"@.len());
        assert("AudioVideo"@ != "Spreadsheet"@);
        assert("AudioVideo"@.len() != "Graphics"@.len());
        assert("AudioVideo"@ != "Graphics"@);
        assert("AudioVideo"@.len() != "Photography"@.len());
        assert("AudioVideo"@ != "Photography"@);
        assert("Audio"@.len() != "Settings"@.len());
        assert("Audio"@ != "Settings"@);
        assert("Audio"@.len() != "DesktopSettings"@.len());
        assert("Audio"@ != "DesktopSettings"@);
        assert("Audio"@.len() != "HardwareSettings"@.len());
        assert("Audio"@ != "HardwareSettings"@);
        assert("Audio"@.len() != "System"@.len());
        assert("Audio"@ != "System"@);
        assert("Audio"@.len() != "Utility"@.len());
        assert("Audio"@ != "Utility"@);
        assert("Audio"@.len() != "Network"@.len());
        assert("Audio"@ != "Network"@);
        assert("Audio"@.len() != "WebBrowser"@.len());
        assert("Audio"@ != "WebBrowser"@);
        assert("Audio"@[0] != "Email"@[0]);
        assert("Audio"@ != "Email"@);
        assert("Audio"@.len() != "Office"@.len());
        assert("Audio"@ != "Office"@);
        assert("Audio"@.len() != "WordProcessor"@.len());
        assert("Audio"@ != "WordProcessor"@);
        assert("Audio"@.len() != "Spreadsheet"@.len());
        assert("Audio"@ != "Spreadsheet"@);
        assert("Audio"@.len() != "Graphics"@.len());
        assert("Audio"@ != "Graphics"@);
        assert("Audio"@.len() != "Photography"@.len());
        assert("Audio"@ != "Photography"@);
        assert("Audio"@.len() != "AudioVideo"@.len());
        assert("Audio"@ != "AudioVideo"@);
        assert("Video"@.len() != "Settings"@.len());
        assert("Video"@ != "Settings"@);
        assert("Video"@.len() != "DesktopSettings"@.len());
        assert("Video"@ != "DesktopSettings"@);
        assert("Video"@.len() != "HardwareSettings"@.len());
        assert("Video"@ != "HardwareSettings"@);
        assert("Video"@.len() != "System"@.len());
        assert("Video"@ != "System"@);
        assert("Video"@.len() != "Utility"@.len());
        assert("Video"@ != "Utility"@);
        assert("Video"@.len() != "Network"@.len());
        assert("Video"@ != "Network"@);
        assert("Video"@.len() != "WebBrowser"@.len());
        assert("Video"@ != "WebBrowser"@);
        assert("Video"@[0] != "Email"@[0]);
        assert("Video"@ != "Email"@);
        assert("Video"@.len() != "Office"@.len());
        assert("Video"@ != "Office"@);
        assert("Video"@.len() != "WordProcessor"@.len());
        assert("Video"@ != "WordProcessor"@);
        assert("Video"@.len() != "Spreadsheet"@.len());
        assert("Video"@ != "Spreadsheet"@);
        assert("Video"@.len() != "Graphics"@.len());
        assert("Video"@ != "Graphics"@);
        assert("Video"@.len() != "Photography"@.len());
        assert("Video"@ != "Photography"@);
        assert("Video"@.len() != "AudioVideo"@.len());
        assert("Video"@ != "AudioVideo"@);
        assert("Video"@[0] != "Audio"@[0]);
        assert("Video"@ != "Audio"@);
        assert("Development"@.len() != "Settings"@.len());
        assert("Development"@ != "Settings"@);
        assert("Development"@.len() != "DesktopSettings"@.len());
        assert("Development"@ != "DesktopSettings"@);
        assert("Development"@.len() != "HardwareSettings"@.len());
        assert("Development"@ != "HardwareSettings"@);
        assert("Development"@.len() != "System"@.len());
        assert("Development"@ != "System"@);
        assert("Development"@.len() != "Utility"@.len());
        assert("Development"@ != "Utility"@);
        assert("Development"@.len() != "Network"@.len());
        assert("Development"@ != "Network"@);
        assert("Development"@.len() != "WebBrowser"@.len());
        assert("Development"@ != "WebBrowser"@);
        assert("Development"@.len() != "Email"@.len());
        assert("Development"@ != "Email"@);
        assert("Development"@.len() != "Office"@.len());
        assert("Development"@ != "Office"@);
        assert("Development"@.len() != "WordProcessor"@.len());
        assert("Development"@ != "WordProcessor"@);
        assert("Development"@[0] != "Spreadsheet"@[0]);
        assert("Development"@ != "Spreadsheet"@);
        assert("Development"@.len() != "Graphics"@.len());
        assert("Development"@ != "Graphics"@);
        assert("Development"@[0] != "Photography"@[0]);
        assert("Development"@ != "Photography"@);
        assert("Development"@.len() != "AudioVideo"@.len());
        assert("Development"@ != "AudioVideo"@);
        assert("Development"@.len() != "Audio"@.len());
        assert("Development"@ != "Audio"@);
        assert("Development"@.len() != "Video"@.len());
        assert("Development"@ != "Video"@);
        assert("Game"@.len() != "Settings"@.len());
        assert("Game"@ != "Settings"@);
        assert("Game"@.len() != "DesktopSettings"@.len());
        assert("Game"@ != "DesktopSettings"@);
        assert("Game"@.len() != "HardwareSettings"@.len());
        assert("Game"@ != "HardwareSettings"@);
        assert("Game"@.len() != "System"@.len());
        assert("Game"@ != "System"@);
        assert("Game"@.len() != "Utility"@.len());
        assert("Game"@ != "Utility"@);
        assert("Game"@.len() != "Network"@.len());
        assert("Game"@ != "Network"@);
        assert("Game"@.len() != "WebBrowser"@.len());
        assert("Game"@ != "WebBrowser"@);
        assert("Game"@.len() != "Email"@.len());
        assert("Game"@ != "Email"@);
        assert("Game"@.len() != "Office"@.len());
        assert("Game"@ != "Office"@);
        assert("Game"@.len() != "WordProcessor"@.len());
        assert("Game"@ != "WordProcessor"@);
        assert("Game"@.len() != "Spreadsheet"@.len());
        assert("Game"@ != "Spreadsheet"@);
        assert("Game"@.len() != "Graphics"@.len());
        assert("Game"@ != "Graphics"@);
        assert("Game"@.len() != "Photography"@.len());
        assert("Game"@ != "Photography"@);
        assert("Game"@.len() != "AudioVideo"@.len());
        assert("Game"@ != "AudioVideo"@);
        assert("Game"@.len() != "Audio"@.len());
        assert("Game"@ != "Audio"@);
        assert("Game"@.len() != "Video"@.len());
        assert("Game"@ != "Video"@);
        assert("Game"@.len() != "Development"@.len());
        assert("Game"@ != "Development"@);
        assert("Education"@.len() != "Settings"@.len());
        assert("Education"@ != "Settings"@);
        assert("Education"@.len() != "DesktopSettings"@.len());
        assert("Education"@ != "DesktopSettings"@);
        assert("Education"@.len() != "HardwareSettings"@.len());
        assert("Education"@ != "HardwareSettings"@);
        assert("Education"@.len() != "System"@.len());
        assert("Education"@ != "System"@);
        assert("Education"@.len() != "Utility"@.len());
        assert("Education"@ != "Utility"@);
        assert("Education"@.len() != "Network"@.len());
        assert("Education"@ != "Network"@);
        assert("Education"@.len() != "WebBrowser"@.len());
        assert("Education"@ != "WebBrowser"@);
        assert("Education"@.len() != "Email"@.len());
        assert("Education"@ != "Email"@);
        assert("Education"@.len() != "Office"@.len());
        assert("Education"@ != "Office"@);
        assert("Education"@.len() != "WordProcessor"@.len());
        assert("Education"@ != "WordProcessor"@);
        assert("Education"@.len() != "Spreadsheet"@.len());
        assert("Education"@ != "Spreadsheet"@);
        assert("Education"@.len() != "Graphics"@.len());
        assert("Education"@ != "Graphics"@);
        assert("Education"@.len() != "Photography"@.len());
        assert("Education"@ != "Photography"@);
        assert("Education"@.len() != "AudioVideo"@.len());
        assert("Education"@ != "AudioVideo"@);
        assert("Education"@.len() != "Audio"@.len());
        assert("Education"@ != "Audio"@);
        assert("Education"@.len() != "Video"@.len());
        assert("Education"@ != "Video"@);
        assert("Education"@.len() != "Development"@.len());
        assert("Education"@ != "Development"@);
        assert("Education"@.len() != "Game"@.len());
        assert("Education"@ != "Game"@);
    }
}

/// A launcher is a control panel exactly when one of its categories is
/// Settings, System, DesktopSettings or HardwareSettings.
pub proof fn lemma_control_panel_categories(cats: Seq<Seq<char>>)
    ensures
        is_control_panel_spec(cats) <==> exists|i: int|
            0 <= i < cats.len() && (cats[i] == "Settings"@ || cats[i] == "System"@ || cats[i]
                == "DesktopSettings"@ || cats[i] == "HardwareSettings"@),
{
    if is_control_panel_spec(cats) {
        let i = choose|i: int| 0 <= i < cats.len() && is_control_panel_category(#[trigger] cats[i]);
        assert(cats[i] == "Settings"@ || cats[i] == "System"@ || cats[i] == "DesktopSettings"@
            || cats[i] == "HardwareSettings"@);
    }
    if exists|i: int|
        0 <= i < cats.len() && (cats[i] == "Settings"@ || cats[i] == "System"@ || cats[i]
            == "DesktopSettings"@ || cats[i] == "HardwareSettings"@) {
        let i = choose|i: int|
            0 <= i < cats.len() && (cats[i] == "Settings"@ || cats[i] == "System"@ || cats[i]
                == "DesktopSettings"@ || cats[i] == "HardwareSettings"@);
        assert(is_control_panel_category(cats[i]));
    }
}

/// A launcher parsed from a desktop file is placed in the menu group of its
/// categories and is a control panel by its categories.
pub proof fn lemma_launcher_group_and_kind(
    file_name: Option<Seq<char>>,
    contents: Seq<char>,
    show_no_display: bool,
)
    ensures
        parse_desktop_spec(file_name, contents, show_no_display) matches Some(app) ==> {
            &&& app.categories == entry_categories(entry_pairs(contents))
            &&& app.group == broad_group_spec(app.categories)
            &&& app.is_control_panel == is_control_panel_spec(app.categories)
        },
{
}

} // verus!
