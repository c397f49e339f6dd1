use piforma_panel::config::PanelConfig;
use piforma_panel::panel_model::{
    EwmhTopStrut, MonitorGeometry, PanelGeometry, PopupAnchor, TopStrutSpan,
};

fn test_geometry() -> PanelGeometry {
    PanelGeometry {
        monitor_id: Some("panel".to_string()),
        monitor_origin_x: 0,
        monitor_origin_y: 0,
        monitor_width: Some(1024),
        monitor_height: Some(600),
        x: 76,
        y: 0,
        width: 658,
        height: 20,
        scale_factor_bits: 1.0f64.to_bits(),
        coordinate_space: "physical",
    }
}

#[test]
fn geometry_uses_normalized_config_dimensions() {
    let mut config = PanelConfig::default();
    config.bar.x = 76;
    config.bar.y = 0;
    config.bar.width = 658;
    config.bar.height = 20;

    let geometry = PanelGeometry::from_config(&config, None).expect("geometry should build");

    assert_eq!(geometry.x, 76);
    assert_eq!(geometry.y, 0);
    assert_eq!(geometry.width, 658);
    assert_eq!(geometry.height, 20);
    assert_eq!(geometry.monitor_origin_x, 0);
    assert_eq!(geometry.monitor_origin_y, 0);
    assert_eq!(f64::from_bits(geometry.scale_factor_bits), 1.0);
    assert_eq!(geometry.coordinate_space, "physical");
}

#[test]
fn geometry_carries_monitor_context_when_available() {
    let config = PanelConfig::default();
    let geometry = PanelGeometry::from_config(
        &config,
        Some(MonitorGeometry {
            id: Some("HDMI-1".to_string()),
            origin_x: 10,
            origin_y: 20,
            width: Some(1024),
            height: Some(600),
            scale_factor_bits: 1.25f64.to_bits(),
        }),
    )
    .expect("geometry should build");

    assert_eq!(geometry.monitor_id.as_deref(), Some("HDMI-1"));
    assert_eq!(geometry.monitor_origin_x, 10);
    assert_eq!(geometry.monitor_origin_y, 20);
    assert_eq!(geometry.monitor_width, Some(1024));
    assert_eq!(geometry.monitor_height, Some(600));
    assert_eq!(f64::from_bits(geometry.scale_factor_bits), 1.25);
}

#[test]
fn geometry_rejects_negative_dimensions() {
    let mut config = PanelConfig::default();
    config.bar.height = -1;
    let error = PanelGeometry::from_config(&config, None).expect_err("negative height");
    assert_eq!(
        error,
        "invalid bar.height after normalization: out of range integral type conversion attempted"
    );
}

#[test]
fn popup_anchor_uses_effective_panel_origin_and_height() {
    let geometry = test_geometry();

    assert_eq!(
        geometry.popup_anchor(35.8f64.floor() as i32),
        PopupAnchor { x: 111, y: 20 }
    );
}

#[test]
fn top_strut_span_matches_effective_panel_span() {
    let geometry = test_geometry();

    assert_eq!(
        geometry.top_strut_span(),
        TopStrutSpan {
            x: 76,
            y: 0,
            width: 658,
            height: 20
        }
    );
}

#[test]
fn ewmh_top_strut_reserves_panel_depth_and_horizontal_span() {
    let geometry = test_geometry();
    let strut = geometry.ewmh_top_strut();

    assert_eq!(
        strut,
        EwmhTopStrut {
            top: 20,
            start_x: 76,
            end_x: 733
        }
    );
    assert_eq!(strut.basic_values(), [0, 0, 20, 0]);
    assert_eq!(
        strut.partial_values(),
        [0, 0, 20, 0, 0, 0, 0, 0, 76, 733, 0, 0]
    );
}

#[test]
fn ewmh_top_strut_includes_positive_top_offset() {
    let mut geometry = test_geometry();
    geometry.y = 4;

    assert_eq!(geometry.ewmh_top_strut().top, 24);
}

#[test]
fn ewmh_top_strut_clips_offscreen_panels() {
    let mut geometry = test_geometry();
    geometry.x = -100;
    geometry.y = -5;
    geometry.width = 50;
    let strut = geometry.ewmh_top_strut();
    assert_eq!(strut, EwmhTopStrut { top: 20, start_x: 0, end_x: 0 });
    geometry.y = i32::MAX;
    geometry.height = u32::MAX;
    assert_eq!(geometry.ewmh_top_strut().top, u32::MAX);
}
