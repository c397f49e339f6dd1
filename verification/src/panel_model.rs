//! The effective geometry of the panel and the coordinates derived from it:
//! where popups open and which screen area the panel reserves.
use vstd::prelude::*;

use crate::config::{config_dimension, PanelConfig};
use crate::text::string_from;

verus! {

/// The bits of the IEEE-754 double `1.0`, the scale factor of a monitor whose
/// scale is not known.
pub const UNIT_SCALE_FACTOR_BITS: u64 = 0x3FF0_0000_0000_0000;

/// The panel's effective geometry, in physical pixels, with the monitor it is on.
/// The monitor's scale factor is carried as the bits of its IEEE-754 double.
#[derive(Debug, Clone)]
pub struct PanelGeometry {
    pub monitor_id: Option<String>,
    pub monitor_origin_x: i32,
    pub monitor_origin_y: i32,
    pub monitor_width: Option<u32>,
    pub monitor_height: Option<u32>,
    pub x: i32,
    pub y: i32,
    pub width: u32,
    pub height: u32,
    pub scale_factor_bits: u64,
    pub coordinate_space: &'static str,
}

/// The monitor that the panel is on. The scale factor is carried as the bits of
/// its IEEE-754 double.
#[derive(Debug, Clone)]
pub struct MonitorGeometry {
    pub id: Option<String>,
    pub origin_x: i32,
    pub origin_y: i32,
    pub width: Option<u32>,
    pub height: Option<u32>,
    pub scale_factor_bits: u64,
}

/// Where a menu popup opens.
#[derive(Clone, Copy, PartialEq, Eq, Structural, Debug)]
pub struct PopupAnchor {
    pub x: i32,
    pub y: i32,
}

/// The screen area that the panel spans at the top.
#[derive(Clone, Copy, PartialEq, Eq, Structural, Debug)]
pub struct TopStrutSpan {
    pub x: i32,
    pub y: i32,
    pub width: u32,
    pub height: u32,
}

/// The space that the panel reserves at the top of the screen, as the window
/// manager's `_NET_WM_STRUT` properties describe it.
#[derive(Clone, Copy, PartialEq, Eq, Structural, Debug)]
pub struct EwmhTopStrut {
    pub top: u32,
    pub start_x: u32,
    pub end_x: u32,
}

impl EwmhTopStrut {
    /// The values of `_NET_WM_STRUT`: left, right, top, bottom.
    pub fn basic_values(self) -> (r: [u32; 4])
        ensures
            r@ == seq![0u32, 0u32, self.top, 0u32],
    {
        let r = [0, 0, self.top, 0];
        assert(r@ =~= seq![0u32, 0u32, self.top, 0u32]);
        r
    }

    /// The values of `_NET_WM_STRUT_PARTIAL`: the four widths, then the start and
    /// end of each edge's span, with only the top edge in use.
    pub fn partial_values(self) -> (r: [u32; 12])
        ensures
            r@ == seq![
                0u32,
                0u32,
                self.top,
                0u32,
                0u32,
                0u32,
                0u32,
                0u32,
                self.start_x,
                self.end_x,
                0u32,
                0u32,
            ],
    {
        let r = [0, 0, self.top, 0, 0, 0, 0, 0, self.start_x, self.end_x, 0, 0];
        assert(r@ =~= seq![
            0u32,
            0u32,
            self.top,
            0u32,
            0u32,
            0u32,
            0u32,
            0u32,
            self.start_x,
            self.end_x,
            0u32,
            0u32,
        ]);
        r
    }
}

impl Default for MonitorGeometry {
    fn default() -> (r: Self)
        ensures
            r.id is None,
            r.origin_x == 0,
            r.origin_y == 0,
            r.width is None,
            r.height is None,
            r.scale_factor_bits == UNIT_SCALE_FACTOR_BITS,
    {
        MonitorGeometry {
            id: None,
            origin_x: 0,
            origin_y: 0,
            width: None,
            height: None,
            scale_factor_bits: UNIT_SCALE_FACTOR_BITS,
        }
    }
}

/// `v` restricted to `[lo, hi]`.
pub open spec fn clamp_int(v: int, lo: int, hi: int) -> int {
    if v < lo {
        lo
    } else if v > hi {
        hi
    } else {
        v
    }
}

/// The reserved depth: from the top of the screen to the panel's bottom edge.
pub open spec fn strut_top(y: i32, height: u32) -> int {
    clamp_int(if y < 0 { 0 } else { y as int } + height, 0, u32::MAX as int)
}

/// The first reserved column: the panel's left edge, not left of the screen.
pub open spec fn strut_start_x(x: i32) -> int {
    if x < 0 {
        0
    } else {
        x as int
    }
}

/// The last reserved column: the panel's right edge, not before the first.
pub open spec fn strut_end_x(x: i32, width: u32) -> int {
    clamp_int(x + width - 1, strut_start_x(x), u32::MAX as int)
}

impl PanelGeometry {
    /// The geometry of the panel that `config` describes on `monitor`, or on the
    /// default monitor; an error when the configured width or height is negative.
    pub fn from_config(config: &PanelConfig, monitor: Option<MonitorGeometry>) -> (r: Result<
        PanelGeometry,
        String,
    >)
        ensures
            (config.bar.width >= 0 && config.bar.height >= 0) <==> r is Ok,
            config.bar.width < 0 ==> (r matches Err(e) && e@
                == crate::config::invalid_dimension_message("bar.width"@)),
            config.bar.width >= 0 && config.bar.height < 0 ==> (r matches Err(e) && e@
                == crate::config::invalid_dimension_message("bar.height"@)),
            r matches Ok(g) ==> {
                &&& g.x == config.bar.x
                &&& g.y == config.bar.y
                &&& g.width == config.bar.width
                &&& g.height == config.bar.height
                &&& g.coordinate_space@ == "physical"@
                &&& match monitor {
                    Some(m) => {
                        &&& crate::desktop_entries::opt_string_view(g.monitor_id)
                            == crate::desktop_entries::opt_string_view(m.id)
                        &&& g.monitor_origin_x == m.origin_x
                        &&& g.monitor_origin_y == m.origin_y
                        &&& g.monitor_width == m.width
                        &&& g.monitor_height == m.height
                        &&& g.scale_factor_bits == m.scale_factor_bits
                    },
                    None => {
                        &&& g.monitor_id is None
                        &&& g.monitor_origin_x == 0
                        &&& g.monitor_origin_y == 0
                        &&& g.monitor_width is None
                        &&& g.monitor_height is None
                        &&& g.scale_factor_bits == UNIT_SCALE_FACTOR_BITS
                    },
                }
            },
    {
        let monitor = match monitor {
            Some(m) => m,
            None => MonitorGeometry::default(),
        };
        let width = match config_dimension(config.bar.width, "bar.width") {
            Ok(w) => w,
            Err(e) => {
                return Err(e);
            },
        };
        let height = match config_dimension(config.bar.height, "bar.height") {
            Ok(h) => h,
            Err(e) => {
                return Err(e);
            },
        };
        Ok(
            PanelGeometry {
                monitor_id: monitor.id,
                monitor_origin_x: monitor.origin_x,
                monitor_origin_y: monitor.origin_y,
                monitor_width: monitor.width,
                monitor_height: monitor.height,
                x: config.bar.x,
                y: config.bar.y,
                width,
                height,
                scale_factor_bits: monitor.scale_factor_bits,
                coordinate_space: "physical",
            },
        )
    }

    /// Where a popup opens for a menu button whose left edge, rounded down, is
    /// `button_left` pixels from the panel's left edge: below the panel, at the
    /// button.
    pub fn popup_anchor(&self, button_left: i32) -> (r: PopupAnchor)
        requires
            i32::MIN <= self.x + button_left <= i32::MAX,
            self.y + clamp_int(self.height as int, 0, i32::MAX as int) <= i32::MAX,
        ensures
            r.x == self.x + button_left,
            r.y == self.y + clamp_int(self.height as int, 0, i32::MAX as int),
    {
        let drop: i32 = if self.height > i32::MAX as u32 {
            i32::MAX
        } else {
            self.height as i32
        };
        PopupAnchor { x: self.x + button_left, y: self.y + drop }
    }

    /// The area that the panel spans.
    pub fn top_strut_span(&self) -> (r: TopStrutSpan)
        ensures
            r == (TopStrutSpan { x: self.x, y: self.y, width: self.width, height: self.height }),
    {
        TopStrutSpan { x: self.x, y: self.y, width: self.width, height: self.height }
    }

    /// The space that the panel reserves at the top of the screen: down to its
    /// bottom edge, across its horizontal span, clipped to the screen's
    /// coordinates.
    pub fn ewmh_top_strut(&self) -> (r: EwmhTopStrut)
        ensures
            r.top == strut_top(self.y, self.height),
            r.start_x == strut_start_x(self.x),
            r.end_x == strut_end_x(self.x, self.width),
            r.start_x <= r.end_x,
    {
        let y: i64 = if self.y < 0 {
            0
        } else {
            self.y as i64
        };
        let top_raw: i64 = y + self.height as i64;
        let top: u32 = if top_raw > u32::MAX as i64 {
            u32::MAX
        } else {
            top_raw as u32
        };
        let start_x: u32 = if self.x < 0 {
            0
        } else {
            self.x as u32
        };
        let raw_end_x: i64 = self.x as i64 + self.width as i64 - 1;
        let end_x: u32 = if raw_end_x < start_x as i64 {
            start_x
        } else if raw_end_x > u32::MAX as i64 {
            u32::MAX
        } else {
            raw_end_x as u32
        };
        EwmhTopStrut { top, start_x, end_x }
    }
}

/// A panel below the top of the screen reserves at least its own height.
pub proof fn lemma_strut_covers_panel(y: i32, height: u32)
    requires
        y >= 0,
    ensures
        strut_top(y, height) >= height,
        strut_top(y, height) == y + height || strut_top(y, height) == u32::MAX,
{
}

} // verus!
