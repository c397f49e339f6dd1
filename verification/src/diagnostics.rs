//! Whether the panel prints verbose diagnostics.
use vstd::prelude::*;

use crate::config::PanelConfig;
use crate::text::str_eq;

verus! {

/// A value of `PIFORMA_PANEL_DEBUG` that turns verbose diagnostics on.
pub open spec fn is_verbose_value(v: Seq<char>) -> bool {
    v == "1"@ || v == "true"@ || v == "TRUE"@ || v == "yes"@ || v == "YES"@
}

/// Whether the value of `PIFORMA_PANEL_DEBUG`, when it is set, turns verbose
/// diagnostics on.
pub fn verbose_from_env(value: Option<&str>) -> (r: bool)
    ensures
        r == (value matches Some(v) && is_verbose_value(v@)),
{
    match value {
        Some(v) => str_eq(v, "1") || str_eq(v, "true") || str_eq(v, "TRUE") || str_eq(v, "yes")
            || str_eq(v, "YES"),
        None => false,
    }
}

/// Whether verbose diagnostics are on: by the environment value `env_value` of
/// `PIFORMA_PANEL_DEBUG`, or by the configuration.
pub fn verbose_for_config(env_value: Option<&str>, config: &PanelConfig) -> (r: bool)
    ensures
        r == ((env_value matches Some(v) && is_verbose_value(v@)) || config.diagnostics.verbose),
{
    verbose_from_env(env_value) || config.diagnostics.verbose
}

} // verus!
