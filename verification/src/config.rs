//! Panel configuration: the model with its defaults, the normalization applied
//! after loading, and the handling of user paths.
use vstd::prelude::*;

use crate::paths::{join_path, path_join};
use crate::text::{append_str, chars_of, has_prefix, string_from, string_of, trim, trim_chars};

verus! {

/// Largest accepted panel width.
pub const PANEL_WIDTH_MAX: i32 = 8192;

/// Largest accepted panel height.
pub const PANEL_HEIGHT_MAX: i32 = 512;

/// Largest accepted corner radius.
pub const PANEL_RADIUS_MAX: i32 = 256;

/// Largest accepted font size.
pub const PANEL_FONT_SIZE_MAX: i32 = 96;

/// Largest accepted menu height.
pub const MENU_HEIGHT_MAX: i32 = 4096;

/// The configuration file written on first launch.
pub const DEFAULT_CONFIG: &'static str = "# PiForma Panel config.
# Missing sections and fields use the defaults shown here.
bar:
  width: 658
  height: 20
  x: 76
  y: 0
  radius_top_left: 18
  radius_top_right: 18
  font_family: ChicagoFLF
  font_size: 13

apple:
  logo_path: ~/.local/share/piforma-panel/apple-color.png

clock:
  enabled: true
  format: \"%I:%M %p\"

applications:
  scan_dirs:
    - ~/.local/share/applications
    - /usr/local/share/applications
    - /usr/share/applications
  show_no_display: false
  group_by_categories: true
  show_category_labels: false
  max_menu_height: 420

menus:
  show_file: true
  show_edit: true
  show_view: true
  show_special: true

actions:
  clean_up_window_command: \"\"
";

/// The whole panel configuration.
#[derive(Debug, Clone)]
pub struct PanelConfig {
    pub bar: BarConfig,
    pub apple: AppleConfig,
    pub clock: ClockConfig,
    pub applications: ApplicationsConfig,
    pub menus: MenusConfig,
    pub actions: ActionsConfig,
    pub diagnostics: DiagnosticsConfig,
}

/// Geometry and font of the menu bar.
#[derive(Debug, Clone)]
pub struct BarConfig {
    pub width: i32,
    pub height: i32,
    pub x: i32,
    pub y: i32,
    pub radius_top_left: i32,
    pub radius_top_right: i32,
    pub font_family: String,
    pub font_size: i32,
}

/// The Apple menu logo.
#[derive(Debug, Clone)]
pub struct AppleConfig {
    pub logo_path: String,
}

/// The menu bar clock.
#[derive(Debug, Clone)]
pub struct ClockConfig {
    pub enabled: bool,
    pub format: String,
}

/// Discovery and presentation of application launchers.
#[derive(Debug, Clone)]
pub struct ApplicationsConfig {
    pub scan_dirs: Vec<String>,
    pub show_no_display: bool,
    pub group_by_categories: bool,
    pub show_category_labels: bool,
    pub max_menu_height: i32,
}

/// Which standard menus the bar shows.
#[derive(Debug, Clone)]
pub struct MenusConfig {
    pub show_file: bool,
    pub show_edit: bool,
    pub show_view: bool,
    pub show_special: bool,
}

/// Commands bound to panel actions.
#[derive(Debug, Clone)]
pub struct ActionsConfig {
    pub clean_up_window_command: String,
}

/// Diagnostic output of the panel.
#[derive(Debug, Clone)]
pub struct DiagnosticsConfig {
    pub verbose: bool,
}

/// `b` holds the default bar settings.
pub open spec fn is_default_bar(b: BarConfig) -> bool {
    &&& b.width == 658
    &&& b.height == 20
    &&& b.x == 76
    &&& b.y == 0
    &&& b.radius_top_left == 18
    &&& b.radius_top_right == 18
    &&& b.font_family@ == "ChicagoFLF"@
    &&& b.font_size == 13
}

/// `a` holds the default Apple menu settings.
pub open spec fn is_default_apple(a: AppleConfig) -> bool {
    a.logo_path@ == "~/.local/share/piforma-panel/apple-color.png"@
}

/// `c` holds the default clock settings.
pub open spec fn is_default_clock(c: ClockConfig) -> bool {
    c.enabled && c.format@ == "%I:%M %p"@
}

/// The default launcher directories.
pub open spec fn default_scan_dirs() -> Seq<Seq<char>> {
    seq![
        "~/.local/share/applications"@,
        "/usr/local/share/applications"@,
        "/usr/share/applications"@,
    ]
}

/// `a` holds the default launcher settings.
pub open spec fn is_default_applications(a: ApplicationsConfig) -> bool {
    &&& a.scan_dirs.deep_view() == default_scan_dirs()
    &&& !a.show_no_display
    &&& a.group_by_categories
    &&& !a.show_category_labels
    &&& a.max_menu_height == 420
}

/// `m` holds the default menu settings.
pub open spec fn is_default_menus(m: MenusConfig) -> bool {
    m.show_file && m.show_edit && m.show_view && m.show_special
}

/// `a` holds the default action settings.
pub open spec fn is_default_actions(a: ActionsConfig) -> bool {
    a.clean_up_window_command@ == Seq::<char>::empty()
}

/// `c` holds the default configuration in every section.
pub open spec fn is_default_config(c: PanelConfig) -> bool {
    &&& is_default_bar(c.bar)
    &&& is_default_apple(c.apple)
    &&& is_default_clock(c.clock)
    &&& is_default_applications(c.applications)
    &&& is_default_menus(c.menus)
    &&& is_default_actions(c.actions)
    &&& !c.diagnostics.verbose
}

impl Default for BarConfig {
    fn default() -> (r: Self)
        ensures
            is_default_bar(r),
    {
        BarConfig {
            width: 658,
            height: 20,
            x: 76,
            y: 0,
            radius_top_left: 18,
            radius_top_right: 18,
            font_family: string_from("ChicagoFLF"),
            font_size: 13,
        }
    }
}

impl Default for AppleConfig {
    fn default() -> (r: Self)
        ensures
            is_default_apple(r),
    {
        AppleConfig { logo_path: string_from("~/.local/share/piforma-panel/apple-color.png") }
    }
}

impl Default for ClockConfig {
    fn default() -> (r: Self)
        ensures
            is_default_clock(r),
    {
        ClockConfig { enabled: true, format: string_from("%I:%M %p") }
    }
}

impl Default for ApplicationsConfig {
    fn default() -> (r: Self)
        ensures
            is_default_applications(r),
    {
        let mut scan_dirs: Vec<String> = Vec::new();
        scan_dirs.push(string_from("~/.local/share/applications"));
        scan_dirs.push(string_from("/usr/local/share/applications"));
        scan_dirs.push(string_from("/usr/share/applications"));
        assert(scan_dirs.deep_view() =~= default_scan_dirs());
        ApplicationsConfig {
            scan_dirs,
            show_no_display: false,
            group_by_categories: true,
            show_category_labels: false,
            max_menu_height: 420,
        }
    }
}

impl Default for MenusConfig {
    fn default() -> (r: Self)
        ensures
            is_default_menus(r),
    {
        MenusConfig { show_file: true, show_edit: true, show_view: true, show_special: true }
    }
}

impl Default for ActionsConfig {
    fn default() -> (r: Self)
        ensures
            is_default_actions(r),
    {
        ActionsConfig { clean_up_window_command: String::new() }
    }
}

impl Default for DiagnosticsConfig {
    fn default() -> (r: Self)
        ensures
            !r.verbose,
    {
        DiagnosticsConfig { verbose: false }
    }
}

impl Default for PanelConfig {
    fn default() -> (r: Self)
        ensures
            is_default_config(r),
    {
        PanelConfig {
            bar: BarConfig::default(),
            apple: AppleConfig::default(),
            clock: ClockConfig::default(),
            applications: ApplicationsConfig::default(),
            menus: MenusConfig::default(),
            actions: ActionsConfig::default(),
            diagnostics: DiagnosticsConfig::default(),
        }
    }
}

// ---------------------------------------------------------------------------
// Paths
// ---------------------------------------------------------------------------

/// `path` with a leading `~` standing for the home directory expanded, when the
/// home directory is known.
pub open spec fn expand_user_path_spec(path: Seq<char>, home: Option<Seq<char>>) -> Seq<char> {
    match home {
        None => path,
        Some(h) => if path == seq!['~'] {
            h
        } else if has_prefix(path, seq!['~', '/']) {
            path_join(h, path.skip(2))
        } else {
            path
        },
    }
}

/// The characters of an optional string slice.
pub open spec fn opt_str_view(s: Option<&str>) -> Option<Seq<char>> {
    match s {
        Some(v) => Some(v@),
        None => None,
    }
}

/// Expands `~` and `~/...` against the home directory `home`; other paths, and
/// every path when `home` is `None`, are returned unchanged.
pub fn expand_user_path(path: &str, home: Option<&str>) -> (r: String)
    ensures
        r@ == expand_user_path_spec(path@, opt_str_view(home)),
{
    let p = chars_of(path);
    match home {
        None => string_from(path),
        Some(h) => {
            let hv = chars_of(h);
            if p.len() == 1 && p[0] == '~' {
                assert(p@ =~= seq!['~']);
                string_of(&hv)
            } else if p.len() >= 2 && p[0] == '~' && p[1] == '/' {
                assert(p@.take(2) =~= seq!['~', '/']);
                assert(p@ != seq!['~']);
                let mut rest: Vec<char> = Vec::new();
                for i in 2..p.len()
                    invariant
                        2 <= p.len(),
                        rest@ == p@.subrange(2, i as int),
                {
                    rest.push(p[i]);
                    assert(p@.subrange(2, i + 1) == p@.subrange(2, i as int).push(p@[i as int]));
                }
                assert(rest@ =~= p@.skip(2));
                let joined = join_path(&hv, &rest);
                string_of(&joined)
            } else {
                assert(p@ != seq!['~']) by {
                    if p@ == seq!['~'] {
                        assert(p@.len() == 1 && p@[0] == '~');
                    }
                }
                assert(!has_prefix(p@, seq!['~', '/'])) by {
                    if has_prefix(p@, seq!['~', '/']) {
                        assert(p@.take(2)[0] == '~');
                        assert(p@.take(2)[1] == '/');
                    }
                }
                string_from(path)
            }
        },
    }
}

/// Where the configuration file lives, given the home directory; an error when
/// the home directory is not known.
pub fn config_path(home: Option<&str>) -> (r: Result<String, String>)
    ensures
        match home {
            None => (r matches Err(e) && e@ == "HOME is not set"@),
            Some(h) => (r matches Ok(p) && p@ == path_join(
                h@,
                ".local/share/piforma-panel/config.yaml"@,
            )),
        },
{
    match home {
        None => Err(string_from("HOME is not set")),
        Some(h) => {
            let hv = chars_of(h);
            let rest = chars_of(".local/share/piforma-panel/config.yaml");
            let joined = join_path(&hv, &rest);
            Ok(string_of(&joined))
        },
    }
}

// ---------------------------------------------------------------------------
// Normalization
// ---------------------------------------------------------------------------

/// `v` moved into `[lo, hi]`: below `lo` it becomes `lo`, above `hi` it becomes `hi`.
pub open spec fn clamp(v: i32, lo: i32, hi: i32) -> i32 {
    if v < lo {
        lo
    } else if v > hi {
        hi
    } else {
        v
    }
}

/// A numeric setting that normalization changed.
#[derive(Debug, Clone)]
pub struct NormalizedValue {
    pub name: String,
    pub original: i32,
    pub normalized: i32,
}

impl View for NormalizedValue {
    type V = (Seq<char>, i32, i32);

    open spec fn view(&self) -> (Seq<char>, i32, i32) {
        (self.name@, self.original, self.normalized)
    }
}

/// The record of a normalization of `v` into `[lo, hi]`: one entry when the
/// value changed, none otherwise.
pub open spec fn note_for(name: Seq<char>, v: i32, lo: i32, hi: i32) -> Seq<(Seq<char>, i32, i32)> {
    if clamp(v, lo, hi) != v {
        seq![(name, v, clamp(v, lo, hi))]
    } else {
        seq![]
    }
}

/// Moves `*value` into `[min, max]` and reports the change, if there was one.
pub fn normalize_range(name: &str, value: &mut i32, min: i32, max: i32) -> (r: Option<
    NormalizedValue,
>)
    ensures
        *final(value) == clamp(*old(value), min, max),
        match r {
            Some(n) => clamp(*old(value), min, max) != *old(value) && n@ == (
                name@,
                *old(value),
                *final(value),
            ),
            None => clamp(*old(value), min, max) == *old(value),
        },
{
    let original = *value;
    if original < min {
        *value = min;
    } else if original > max {
        *value = max;
    }
    if *value != original {
        Some(NormalizedValue { name: string_from(name), original, normalized: *value })
    } else {
        None
    }
}

/// Adds the record of one normalization, if there is one, to `notes`.
fn record_note(notes: &mut Vec<NormalizedValue>, note: Option<NormalizedValue>)
    ensures
        final(notes).deep_view() == old(notes).deep_view() + match note {
            Some(n) => seq![n@],
            None => Seq::<(Seq<char>, i32, i32)>::empty(),
        },
{
    match note {
        Some(n) => {
            let ghost before = notes.deep_view();
            let ghost nv = n@;
            notes.push(n);
            assert(notes.deep_view() =~= before + seq![nv]);
        },
        None => {
            assert(notes.deep_view() =~= notes.deep_view() + Seq::<(Seq<char>, i32, i32)>::empty());
        },
    }
}

impl vstd::view::DeepView for NormalizedValue {
    type V = (Seq<char>, i32, i32);

    open spec fn deep_view(&self) -> (Seq<char>, i32, i32) {
        self@
    }
}

/// The records of every setting that normalizing `c` changes, in the order in
/// which normalization visits them.
pub open spec fn normalization_notes(c: PanelConfig) -> Seq<(Seq<char>, i32, i32)> {
    note_for("bar.width"@, c.bar.width, 1, PANEL_WIDTH_MAX) + note_for(
        "bar.height"@,
        c.bar.height,
        1,
        PANEL_HEIGHT_MAX,
    ) + note_for("bar.radius_top_left"@, c.bar.radius_top_left, 0, PANEL_RADIUS_MAX) + note_for(
        "bar.radius_top_right"@,
        c.bar.radius_top_right,
        0,
        PANEL_RADIUS_MAX,
    ) + note_for("bar.font_size"@, c.bar.font_size, 1, PANEL_FONT_SIZE_MAX) + note_for(
        "applications.max_menu_height"@,
        c.applications.max_menu_height,
        1,
        MENU_HEIGHT_MAX,
    )
}

/// `n` is `o` normalized against the home directory `home`: numeric settings
/// clamped into their ranges, user paths expanded, everything else unchanged.
pub open spec fn is_normalized_from(n: PanelConfig, o: PanelConfig, home: Option<Seq<char>>) -> bool {
    &&& n.bar.width == clamp(o.bar.width, 1, PANEL_WIDTH_MAX)
    &&& n.bar.height == clamp(o.bar.height, 1, PANEL_HEIGHT_MAX)
    &&& n.bar.radius_top_left == clamp(o.bar.radius_top_left, 0, PANEL_RADIUS_MAX)
    &&& n.bar.radius_top_right == clamp(o.bar.radius_top_right, 0, PANEL_RADIUS_MAX)
    &&& n.bar.font_size == clamp(o.bar.font_size, 1, PANEL_FONT_SIZE_MAX)
    &&& n.applications.max_menu_height == clamp(o.applications.max_menu_height, 1, MENU_HEIGHT_MAX)
    &&& n.bar.x == o.bar.x
    &&& n.bar.y == o.bar.y
    &&& n.bar.font_family@ == o.bar.font_family@
    &&& n.apple.logo_path@ == expand_user_path_spec(o.apple.logo_path@, home)
    &&& n.applications.scan_dirs.deep_view() == o.applications.scan_dirs.deep_view().map_values(
        |p: Seq<char>| expand_user_path_spec(p, home),
    )
    &&& n.applications.show_no_display == o.applications.show_no_display
    &&& n.applications.group_by_categories == o.applications.group_by_categories
    &&& n.applications.show_category_labels == o.applications.show_category_labels
    &&& n.clock.enabled == o.clock.enabled
    &&& n.clock.format@ == o.clock.format@
    &&& n.menus == o.menus
    &&& n.actions.clean_up_window_command@ == o.actions.clean_up_window_command@
    &&& n.diagnostics == o.diagnostics
}

/// Expands every path of `dirs` against `home`.
fn expand_all(dirs: &Vec<String>, home: Option<&str>) -> (r: Vec<String>)
    ensures
        r.deep_view() == dirs.deep_view().map_values(
            |p: Seq<char>| expand_user_path_spec(p, opt_str_view(home)),
        ),
{
    let ghost hv = opt_str_view(home);
    let mut r: Vec<String> = Vec::new();
    for i in 0..dirs.len()
        invariant
            hv == opt_str_view(home),
            r.deep_view() == dirs.deep_view().take(i as int).map_values(
                |p: Seq<char>| expand_user_path_spec(p, hv),
            ),
    {
        let e = expand_user_path(dirs[i].as_str(), home);
        let ghost before = r.deep_view();
        r.push(e);
        assert(r.deep_view() =~= before.push(expand_user_path_spec(dirs@[i as int]@, hv)));
        assert(dirs.deep_view().take(i + 1) =~= dirs.deep_view().take(i as int).push(
            dirs@[i as int]@,
        ));
        assert(dirs.deep_view().take(i + 1).map_values(
            |p: Seq<char>| expand_user_path_spec(p, hv),
        ) =~= dirs.deep_view().take(i as int).map_values(
            |p: Seq<char>| expand_user_path_spec(p, hv),
        ).push(expand_user_path_spec(dirs@[i as int]@, hv)));
    }
    assert(dirs.deep_view().take(dirs.len() as int) =~= dirs.deep_view());
    r
}

/// Clamps the numeric settings into their accepted ranges and expands the user
/// paths against `home`; returns the record of every numeric setting it changed.
pub fn normalize_config(config: &mut PanelConfig, home: Option<&str>) -> (notes: Vec<
    NormalizedValue,
>)
    ensures
        is_normalized_from(*final(config), *old(config), opt_str_view(home)),
        notes.deep_view() == normalization_notes(*old(config)),
{
    let ghost o = *config;
    let mut notes: Vec<NormalizedValue> = Vec::new();
    let n = normalize_range("bar.width", &mut config.bar.width, 1, PANEL_WIDTH_MAX);
    record_note(&mut notes, n);
    let n = normalize_range("bar.height", &mut config.bar.height, 1, PANEL_HEIGHT_MAX);
    record_note(&mut notes, n);
    let n = normalize_range(
        "bar.radius_top_left",
        &mut config.bar.radius_top_left,
        0,
        PANEL_RADIUS_MAX,
    );
    record_note(&mut notes, n);
    let n = normalize_range(
        "bar.radius_top_right",
        &mut config.bar.radius_top_right,
        0,
        PANEL_RADIUS_MAX,
    );
    record_note(&mut notes, n);
    let n = normalize_range("bar.font_size", &mut config.bar.font_size, 1, PANEL_FONT_SIZE_MAX);
    record_note(&mut notes, n);
    let n = normalize_range(
        "applications.max_menu_height",
        &mut config.applications.max_menu_height,
        1,
        MENU_HEIGHT_MAX,
    );
    record_note(&mut notes, n);
    config.apple.logo_path = expand_user_path(config.apple.logo_path.as_str(), home);
    config.applications.scan_dirs = expand_all(&config.applications.scan_dirs, home);
    assert(notes.deep_view() =~= normalization_notes(o));
    notes
}

// ---------------------------------------------------------------------------
// Loading
// ---------------------------------------------------------------------------

/// Whether a configuration text holds nothing but white space, in which case the
/// defaults apply without parsing.
pub fn config_text_is_blank(contents: &str) -> (r: bool)
    ensures
        r == (trim(contents@).len() == 0),
{
    let v = chars_of(contents);
    let t = trim_chars(&v);
    t.len() == 0
}

/// The prefix of the message for a configuration text that does not parse.
pub open spec fn invalid_config_message(err: Seq<char>) -> Seq<char> {
    "invalid config.yaml: "@ + err
}

/// Finishes loading a configuration: `parsed` is the configuration read from the
/// file (the defaults for a blank file) or the parser's error message. A parsed
/// configuration is normalized against `home`; an error is reported with the
/// prefix `invalid config.yaml: `.
pub fn load_config(parsed: Result<PanelConfig, String>, home: Option<&str>) -> (r: Result<
    (PanelConfig, Vec<NormalizedValue>),
    String,
>)
    ensures
        match (parsed, r) {
            (Ok(p), Ok((c, notes))) => is_normalized_from(c, p, opt_str_view(home))
                && notes.deep_view() == normalization_notes(p),
            (Err(e), Err(m)) => m@ == invalid_config_message(e@),
            _ => false,
        },
{
    match parsed {
        Ok(mut config) => {
            let notes = normalize_config(&mut config, home);
            Ok((config, notes))
        },
        Err(e) => {
            let mut m = chars_of("invalid config.yaml: ");
            append_str(&mut m, e.as_str());
            Err(string_of(&m))
        },
    }
}

/// The message for a negative dimension that should have been normalized away.
pub open spec fn invalid_dimension_message(name: Seq<char>) -> Seq<char> {
    "invalid "@ + name + " after normalization: out of range integral type conversion attempted"@
}

/// A configured dimension as an unsigned number; an error for a negative value.
pub fn config_dimension(value: i32, name: &str) -> (r: Result<u32, String>)
    ensures
        value >= 0 ==> r == Ok::<u32, String>(value as u32),
        value < 0 ==> (r matches Err(m) && m@ == invalid_dimension_message(name@)),
{
    if value >= 0 {
        Ok(value as u32)
    } else {
        let mut m = chars_of("invalid ");
        append_str(&mut m, name);
        append_str(&mut m, " after normalization: out of range integral type conversion attempted");
        Err(string_of(&m))
    }
}

/// Every numeric setting of a normalized configuration lies in its accepted
/// range, so the panel's width and height are positive.
pub proof fn lemma_normalized_ranges(n: PanelConfig, o: PanelConfig, home: Option<Seq<char>>)
    requires
        is_normalized_from(n, o, home),
    ensures
        1 <= n.bar.width <= PANEL_WIDTH_MAX,
        1 <= n.bar.height <= PANEL_HEIGHT_MAX,
        0 <= n.bar.radius_top_left <= PANEL_RADIUS_MAX,
        0 <= n.bar.radius_top_right <= PANEL_RADIUS_MAX,
        1 <= n.bar.font_size <= PANEL_FONT_SIZE_MAX,
        1 <= n.applications.max_menu_height <= MENU_HEIGHT_MAX,
{
}

/// Normalizing a normalized configuration again changes no numeric setting.
pub proof fn lemma_normalization_settles(n: PanelConfig, o: PanelConfig, home: Option<Seq<char>>)
    requires
        is_normalized_from(n, o, home),
    ensures
        normalization_notes(n) == Seq::<(Seq<char>, i32, i32)>::empty(),
{
    assert(normalization_notes(n) =~= Seq::<(Seq<char>, i32, i32)>::empty());
}

/// The default configuration is within every accepted range: normalizing it
/// changes no numeric setting.
pub proof fn lemma_defaults_within_ranges(c: PanelConfig)
    requires
        is_default_config(c),
    ensures
        normalization_notes(c) == Seq::<(Seq<char>, i32, i32)>::empty(),
{
    assert(normalization_notes(c) =~= Seq::<(Seq<char>, i32, i32)>::empty());
}

/// Expanding a user path a second time changes nothing, when the home
/// directory is known, not empty, and does not itself start with `~`.
pub proof fn lemma_expand_user_path_settles(path: Seq<char>, home: Seq<char>)
    requires
        home.len() > 0,
        home[0] != '~',
    ensures
        expand_user_path_spec(expand_user_path_spec(path, Some(home)), Some(home))
            == expand_user_path_spec(path, Some(home)),
{
    let e = expand_user_path_spec(path, Some(home));
    if path == seq!['~'] || has_prefix(path, seq!['~', '/']) {
        assert(e.len() > 0 && e[0] != '~') by {
            if path != seq!['~'] {
                let rest = path.skip(2);
                if !(rest.len() > 0 && rest[0] == '/') {
                    assert(e[0] == home[0]);
                }
            }
        }
        assert(e != seq!['~']) by {
            if e == seq!['~'] {
                assert(e[0] == '~');
            }
        }
        assert(!has_prefix(e, seq!['~', '/'])) by {
            if has_prefix(e, seq!['~', '/']) {
                assert(e.take(2)[0] == e[0]);
            }
        }
    }
}

} // verus!
