//! The computations behind the commands that the panel's frontend invokes:
//! build information, the Apple logo as a data URL, and the launcher lists.
use vstd::prelude::*;

use base64::Engine;

use crate::desktop_entries::{DesktopApp, DesktopAppView};
use crate::paths::path_extension;
use crate::text::{append_str, chars_eq_str, chars_of, str_eq, string_from, string_of};

verus! {

broadcast use vstd::seq_lib::group_seq_properties;

/// What the build was made from.
#[derive(Debug, Clone)]
pub struct BuildInfo {
    pub commit: String,
    pub branch: String,
    pub built_at: String,
    pub dirty: bool,
}

/// The text of an optional build value, `unknown` when it was not given.
pub open spec fn or_unknown(v: Option<&str>) -> Seq<char> {
    match v {
        Some(s) => s@,
        None => "unknown"@,
    }
}

/// The build information from the values that the build recorded, if it did:
/// missing values read `unknown`, and the tree was dirty only when that value
/// is `true`.
pub fn build_info(
    commit: Option<&str>,
    branch: Option<&str>,
    built_at: Option<&str>,
    dirty: Option<&str>,
) -> (r: BuildInfo)
    ensures
        r.commit@ == or_unknown(commit),
        r.branch@ == or_unknown(branch),
        r.built_at@ == or_unknown(built_at),
        r.dirty == (dirty matches Some(d) && d@ == "true"@),
{
    BuildInfo {
        commit: string_from(
            match commit {
                Some(c) => c,
                None => "unknown",
            },
        ),
        branch: string_from(
            match branch {
                Some(b) => b,
                None => "unknown",
            },
        ),
        built_at: string_from(
            match built_at {
                Some(b) => b,
                None => "unknown",
            },
        ),
        dirty: match dirty {
            Some(d) => str_eq(d, "true"),
            None => false,
        },
    }
}

// ---------------------------------------------------------------------------
// The Apple logo
// ---------------------------------------------------------------------------

/// The MIME type of an image by its file's extension: JPEG, GIF, WebP, SVG, and
/// PNG for anything else.
pub open spec fn image_mime_spec(path: Seq<char>) -> Seq<char> {
    match path_extension(path) {
        Some(e) => if e == "jpg"@ || e == "jpeg"@ {
            "image/jpeg"@
        } else if e == "gif"@ {
            "image/gif"@
        } else if e == "webp"@ {
            "image/webp"@
        } else if e == "svg"@ {
            "image/svg+xml"@
        } else {
            "image/png"@
        },
        None => "image/png"@,
    }
}

/// The MIME type of the image at `path`.
pub fn image_mime_type(path: &str) -> (r: &'static str)
    ensures
        r@ == image_mime_spec(path@),
{
    match crate::paths::extension(path) {
        Some(e) => if chars_eq_str(&e, "jpg") || chars_eq_str(&e, "jpeg") {
            "image/jpeg"
        } else if chars_eq_str(&e, "gif") {
            "image/gif"
        } else if chars_eq_str(&e, "webp") {
            "image/webp"
        } else if chars_eq_str(&e, "svg") {
            "image/svg+xml"
        } else {
            "image/png"
        },
        None => "image/png",
    }
}

/// The character of the Base64 alphabet (RFC 4648, section 4) for the six-bit
/// value `v`: `A`-`Z`, `a`-`z`, `0`-`9`, `+` and `/`.
pub open spec fn base64_digit(v: int) -> char {
    if v < 26 {
        (65 + v) as char
    } else if v < 52 {
        (97 + (v - 26)) as char
    } else if v < 62 {
        (48 + (v - 52)) as char
    } else if v == 62 {
        '+'
    } else {
        '/'
    }
}

/// The standard Base64 encoding of `bytes` (RFC 4648, section 4): every group of
/// three bytes becomes four characters of six bits each, most significant bits
/// first; a last group of one or two bytes is filled with zero bits and padded
/// with `=` to four characters.
pub open spec fn base64_standard(bytes: Seq<u8>) -> Seq<char>
    decreases bytes.len(),
{
    if bytes.len() == 0 {
        seq![]
    } else if bytes.len() == 1 {
        let x = bytes[0] as int;
        seq![base64_digit(x / 4), base64_digit((x % 4) * 16), '=', '=']
    } else if bytes.len() == 2 {
        let x = bytes[0] as int;
        let y = bytes[1] as int;
        seq![base64_digit(x / 4), base64_digit((x % 4) * 16 + y / 16), base64_digit((y % 16) * 4), '=']
    } else {
        let x = bytes[0] as int;
        let y = bytes[1] as int;
        let z = bytes[2] as int;
        seq![
            base64_digit(x / 4),
            base64_digit((x % 4) * 16 + y / 16),
            base64_digit((y % 16) * 4 + z / 64),
            base64_digit(z % 64),
        ] + base64_standard(bytes.skip(3))
    }
}

/// `bytes` in standard Base64 (`base64::Engine::encode` on the padding
/// `general_purpose::STANDARD` engine); the length of the encoding must fit in
/// memory, or the crate panics.
#[verifier::external_body]
fn base64_encode(bytes: &[u8]) -> (r: String)
    requires
        4 * ((bytes@.len() + 2) / 3) <= usize::MAX,
    ensures
        r@ == base64_standard(bytes@),
{
    base64::engine::general_purpose::STANDARD.encode(bytes)
}

/// The standard Base64 encoding has four characters for every started group of
/// three bytes.
pub proof fn lemma_base64_length(bytes: Seq<u8>)
    ensures
        base64_standard(bytes).len() == 4 * ((bytes.len() + 2) / 3),
    decreases bytes.len(),
{
    if bytes.len() > 2 {
        lemma_base64_length(bytes.skip(3));
    }
}

/// A `data:` URL of the given MIME type with Base64 content.
pub fn data_url(mime: &str, encoded: &str) -> (r: String)
    ensures
        r@ == "data:"@ + mime@ + ";base64,"@ + encoded@,
{
    let mut v = chars_of("data:");
    append_str(&mut v, mime);
    append_str(&mut v, ";base64,");
    append_str(&mut v, encoded);
    string_of(&v)
}

/// The Apple logo read from `path` as a `data:` URL: the image's MIME type by
/// its extension and its bytes in standard Base64.
pub fn get_apple_logo_data_url(path: &str, bytes: &[u8]) -> (r: String)
    requires
        4 * ((bytes@.len() + 2) / 3) <= usize::MAX,
    ensures
        r@ == "data:"@ + image_mime_spec(path@) + ";base64,"@ + base64_standard(bytes@),
{
    let mime = image_mime_type(path);
    let encoded = base64_encode(bytes);
    data_url(mime, encoded.as_str())
}

// ---------------------------------------------------------------------------
// Frontend assets
// ---------------------------------------------------------------------------

/// A configured value, or `missing` when it is absent.
pub open spec fn or_missing(v: Option<Seq<char>>) -> Seq<char> {
    match v {
        Some(s) => s,
        None => "missing"@,
    }
}

/// The report of how the frontend assets are configured: the configured
/// `build.frontendDist`, whether it is the bundled `../dist`, and the
/// `app.security.csp` value as JSON text; an absent value reads `missing`.
pub open spec fn asset_report_spec(frontend_dist: Option<Seq<char>>, csp: Option<Seq<char>>) -> Seq<char> {
    let dist = or_missing(frontend_dist);
    "tauri asset config: frontendDist="@ + dist + ", frontendDist_is_bundled_dist="@ + (if dist
        == "../dist"@ {
        "true"@
    } else {
        "false"@
    }) + ", app.security.csp="@ + or_missing(csp)
}

/// The report of how the frontend assets are configured, given the configured
/// `build.frontendDist` text and the `app.security.csp` value as JSON text, each
/// when present.
pub fn tauri_asset_report(frontend_dist: Option<&str>, csp: Option<&str>) -> (r: String)
    ensures
        r@ == asset_report_spec(
            crate::config::opt_str_view(frontend_dist),
            crate::config::opt_str_view(csp),
        ),
{
    let dist = match frontend_dist {
        Some(d) => d,
        None => "missing",
    };
    let mut v = chars_of("tauri asset config: frontendDist=");
    append_str(&mut v, dist);
    append_str(&mut v, ", frontendDist_is_bundled_dist=");
    if str_eq(dist, "../dist") {
        append_str(&mut v, "true");
    } else {
        append_str(&mut v, "false");
    }
    append_str(&mut v, ", app.security.csp=");
    append_str(
        &mut v,
        match csp {
            Some(c) => c,
            None => "missing",
        },
    );
    string_of(&v)
}

/// The message of `serde_json` for a text that does not parse as JSON, or
/// `None` when it parses (`serde_json::from_str::<Value>`).
pub uninterp spec fn json_parse_error(text: Seq<char>) -> Option<Seq<char>>;

/// The string at a JSON pointer of a JSON text, when the pointer leads to a
/// string (`Value::pointer`, then `Value::as_str`).
pub uninterp spec fn json_pointer_as_str(text: Seq<char>, pointer: Seq<char>) -> Option<Seq<char>>;

/// The value at a JSON pointer of a JSON text, written back as compact JSON,
/// when the pointer leads to a value (`Value::pointer`, then `to_string`).
pub uninterp spec fn json_pointer_to_string(text: Seq<char>, pointer: Seq<char>) -> Option<Seq<char>>;

/// The string at `pointer` in the JSON text `text` (`serde_json::from_str` into a
/// `serde_json::Value`, then `Value::pointer` and `Value::as_str`); the parser's
/// message when the text is not JSON.
#[verifier::external_body]
fn json_pointer_str(text: &str, pointer: &str) -> (r: Result<Option<String>, String>)
    ensures
        match r {
            Ok(v) => json_parse_error(text@) is None && crate::desktop_entries::opt_string_view(v)
                == json_pointer_as_str(text@, pointer@),
            Err(e) => json_parse_error(text@) == Some(e@),
        },
{
    match serde_json::from_str::<serde_json::Value>(text) {
        Ok(v) => Ok(v.pointer(pointer).and_then(serde_json::Value::as_str).map(str::to_string)),
        Err(e) => Err(e.to_string()),
    }
}

/// The value at `pointer` in the JSON text `text`, written back as JSON text
/// (`serde_json::from_str` into a `serde_json::Value`, then `Value::pointer` and
/// `to_string`); the parser's message when the text is not JSON.
#[verifier::external_body]
fn json_pointer_json(text: &str, pointer: &str) -> (r: Result<Option<String>, String>)
    ensures
        match r {
            Ok(v) => json_parse_error(text@) is None && crate::desktop_entries::opt_string_view(v)
                == json_pointer_to_string(text@, pointer@),
            Err(e) => json_parse_error(text@) == Some(e@),
        },
{
    match serde_json::from_str::<serde_json::Value>(text) {
        Ok(v) => Ok(v.pointer(pointer).map(serde_json::Value::to_string)),
        Err(e) => Err(e.to_string()),
    }
}

/// The message for a Tauri configuration that does not parse.
pub open spec fn asset_config_error(e: Seq<char>) -> Seq<char> {
    "tauri asset config: failed to parse tauri.conf.json: "@ + e
}

/// The diagnostics of the frontend asset configuration in the Tauri
/// configuration text `conf_json`: the report of its `build.frontendDist` and
/// `app.security.csp`, or, when it is not JSON, the parse failure.
pub fn tauri_asset_diagnostics(conf_json: &str) -> (r: Result<String, String>)
    ensures
        match json_parse_error(conf_json@) {
            None => (r matches Ok(s) && s@ == asset_report_spec(
                json_pointer_as_str(conf_json@, "/build/frontendDist"@),
                json_pointer_to_string(conf_json@, "/app/security/csp"@),
            )),
            Some(e) => (r matches Err(m) && m@ == asset_config_error(e)),
        },
{
    let dist = match json_pointer_str(conf_json, "/build/frontendDist") {
        Ok(d) => d,
        Err(e) => {
            return Err(asset_config_failure(e.as_str()));
        },
    };
    let csp = match json_pointer_json(conf_json, "/app/security/csp") {
        Ok(c) => c,
        Err(e) => {
            return Err(asset_config_failure(e.as_str()));
        },
    };
    let dist_text: Option<&str> = match &dist {
        Some(x) => Some(x.as_str()),
        None => None,
    };
    let csp_text: Option<&str> = match &csp {
        Some(x) => Some(x.as_str()),
        None => None,
    };
    Ok(tauri_asset_report(dist_text, csp_text))
}

/// The message for a Tauri configuration that does not parse, with the parser's
/// message `e`.
fn asset_config_failure(e: &str) -> (r: String)
    ensures
        r@ == asset_config_error(e@),
{
    let mut v = chars_of("tauri asset config: failed to parse tauri.conf.json: ");
    append_str(&mut v, e);
    string_of(&v)
}

// ---------------------------------------------------------------------------
// Launcher lists
// ---------------------------------------------------------------------------

/// The launchers of `apps` that are (`true`) or are not (`false`) control
/// panels, in order.
pub open spec fn apps_by_kind(apps: Seq<DesktopAppView>, control_panels: bool) -> Seq<DesktopAppView>
    decreases apps.len(),
{
    if apps.len() == 0 {
        seq![]
    } else {
        let rest = apps_by_kind(apps.drop_last(), control_panels);
        if apps.last().is_control_panel == control_panels {
            rest.push(apps.last())
        } else {
            rest
        }
    }
}

/// The launchers of `apps` of one kind.
fn select_apps(apps: Vec<DesktopApp>, control_panels: bool) -> (r: Vec<DesktopApp>)
    ensures
        r.deep_view() == apps_by_kind(apps.deep_view(), control_panels),
{
    let ghost av = apps.deep_view();
    let mut rest = apps;
    let mut reversed: Vec<DesktopApp> = Vec::new();
    while rest.len() > 0
        invariant
            reversed.deep_view() + rest.deep_view().reverse() == av.reverse(),
        decreases rest.len(),
    {
        let ghost rv = rest.deep_view();
        let x = rest.pop().unwrap();
        let ghost xv = x@;
        let ghost before = reversed.deep_view();
        reversed.push(x);
        assert(rest.deep_view() =~= rv.drop_last());
        assert(rv.reverse() =~= seq![xv] + rv.drop_last().reverse());
        assert(reversed.deep_view() =~= before.push(xv));
        assert(reversed.deep_view() + rest.deep_view().reverse() =~= before + rv.reverse());
    }
    assert(reversed.deep_view() =~= av.reverse());
    let mut out: Vec<DesktopApp> = Vec::new();
    let mut taken: usize = 0;
    let total = reversed.len();
    while reversed.len() > 0
        invariant
            reversed.deep_view() == av.skip(taken as int).reverse(),
            reversed.deep_view().len() + taken == av.len(),
            av.len() == total,
            out.deep_view() == apps_by_kind(av.take(taken as int), control_panels),
        decreases reversed.len(),
    {
        let ghost remv = reversed.deep_view();
        let x = reversed.pop().unwrap();
        assert(remv.last() == av[taken as int]) by {
            assert(av.skip(taken as int).reverse().last() == av.skip(taken as int)[0]);
        }
        assert(av.take(taken + 1).drop_last() =~= av.take(taken as int));
        if x.is_control_panel == control_panels {
            let ghost before = out.deep_view();
            let ghost xv = x@;
            out.push(x);
            assert(out.deep_view() =~= before.push(xv));
        }
        assert(av.skip(taken + 1).reverse() =~= remv.drop_last());
        taken = taken + 1;
    }
    assert(av.take(av.len() as int) =~= av);
    out
}

/// The launchers that the Applications menu lists: those that are not control
/// panels, in order.
pub fn list_applications(apps: Vec<DesktopApp>) -> (r: Vec<DesktopApp>)
    ensures
        r.deep_view() == apps_by_kind(apps.deep_view(), false),
{
    select_apps(apps, false)
}

/// The launchers that the Control Panels menu lists, in order.
pub fn list_control_panels(apps: Vec<DesktopApp>) -> (r: Vec<DesktopApp>)
    ensures
        r.deep_view() == apps_by_kind(apps.deep_view(), true),
{
    select_apps(apps, true)
}

/// Whether a scanned path names a desktop file: its extension is `desktop`.
pub fn is_desktop_file(path: &str) -> (r: bool)
    ensures
        r == (path_extension(path@) == Some("desktop"@)),
{
    match crate::paths::extension(path) {
        Some(e) => chars_eq_str(&e, "desktop"),
        None => false,
    }
}

/// The Applications and Control Panels menus together list every launcher once.
pub proof fn lemma_launcher_lists_partition(apps: Seq<DesktopAppView>)
    ensures
        apps_by_kind(apps, false).len() + apps_by_kind(apps, true).len() == apps.len(),
    decreases apps.len(),
{
    if apps.len() > 0 {
        lemma_launcher_lists_partition(apps.drop_last());
    }
}

/// The logo's MIME type follows its file's extension, in lower case as written:
/// `jpg` and `jpeg` are JPEG, `gif` GIF, `webp` WebP, `svg` SVG, and anything
/// else, or no extension, is PNG.
pub proof fn lemma_logo_mime_by_extension(path: Seq<char>)
    ensures
        ({
            let m = image_mime_spec(path);
            let e = path_extension(path);
            &&& (e == Some("jpg"@) || e == Some("jpeg"@)) ==> m == "image/jpeg"@
            &&& e == Some("gif"@) ==> m == "image/gif"@
            &&& e == Some("webp"@) ==> m == "image/webp"@
            &&& e == Some("svg"@) ==> m == "image/svg+xml"@
            &&& !(e == Some("jpg"@) || e == Some("jpeg"@) || e == Some("gif"@) || e == Some(
                "webp"@,
            ) || e == Some("svg"@)) ==> m == "image/png"@
        }),
{
    reveal_strlit("jpg");
    reveal_strlit("jpeg");
    reveal_strlit("gif");
    reveal_strlit("webp");
    reveal_strlit("svg");
    assert("jpg"@[0] != "gif"@[0] && "jpg"@[0] != "svg"@[0] && "gif"@[0] != "svg"@[0]);
    assert("jpg"@ != "gif"@ && "jpg"@ != "svg"@ && "gif"@ != "svg"@);
    assert("jpeg"@[0] != "webp"@[0]);
    assert("jpeg"@ != "webp"@);
    assert("jpg"@.len() != "jpeg"@.len() && "jpg"@.len() != "webp"@.len());
    assert("jpg"@ != "jpeg"@ && "jpg"@ != "webp"@);
    assert("jpeg"@.len() != "gif"@.len() && "jpeg"@.len() != "svg"@.len());
    assert("jpeg"@ != "gif"@ && "jpeg"@ != "svg"@);
    assert("webp"@.len() != "gif"@.len() && "webp"@.len() != "svg"@.len());
    assert("webp"@ != "gif"@ && "webp"@ != "svg"@);
}

} // verus!
