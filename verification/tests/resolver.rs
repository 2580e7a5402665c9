use snarl_core::style::SnarlStyle;
use snarl_core::types::AmbientStyle;
use snarl_core::types::BackgroundPattern;
use snarl_core::types::Color;
use snarl_core::types::Frame;
use snarl_core::types::Margin;
use snarl_core::types::NodeLayout;
use snarl_core::types::PinPlacement;
use snarl_core::types::PinShape;
use snarl_core::types::SelectionStyle;
use snarl_core::types::Shadow;
use snarl_core::types::Size2;
use snarl_core::types::Stroke;
use snarl_core::types::WireLayer;
use snarl_core::types::WireStyle;

const OPAQUE_BLUE: Color = Color { r: 0, g: 0, b: 255, a: 255 };
const OPAQUE_RED: Color = Color { r: 255, g: 0, b: 0, a: 255 };

fn margin(v: u64) -> Margin {
    Margin { left: v, right: v, top: v, bottom: v }
}

fn shadow() -> Shadow {
    Shadow {
        offset_x: 2000,
        offset_y: 3000,
        blur: 4000,
        spread: 500,
        color: Color { r: 0, g: 0, b: 0, a: 96 },
    }
}

fn window_frame() -> Frame {
    Frame {
        inner_margin: margin(6000),
        outer_margin: margin(0),
        corner_radius: 6000,
        shadow: shadow(),
        fill: Color { r: 30, g: 30, b: 30, a: 255 },
        stroke: Stroke { width: 1000, color: Color { r: 60, g: 60, b: 60, a: 255 } },
    }
}

fn canvas_frame() -> Frame {
    Frame {
        inner_margin: margin(2000),
        outer_margin: margin(0),
        corner_radius: 5000,
        shadow: Shadow { offset_x: 0, offset_y: 0, blur: 0, spread: 0, color: Color { r: 0, g: 0, b: 0, a: 0 } },
        fill: Color { r: 10, g: 10, b: 10, a: 255 },
        stroke: Stroke { width: 0, color: Color { r: 0, g: 0, b: 0, a: 0 } },
    }
}

fn ambient() -> AmbientStyle {
    AmbientStyle {
        interact_size_y: 20000,
        icon_width: 14000,
        window_margin: margin(8000),
        window_corner_radius: 6000,
        active_bg_fill: OPAQUE_BLUE,
        active_bg_stroke: Stroke { width: 1000, color: Color { r: 200, g: 200, b: 200, a: 255 } },
        noninteractive_bg_stroke: Stroke { width: 1000, color: Color { r: 80, g: 80, b: 80, a: 255 } },
        selection_stroke: Stroke { width: 1000, color: Color { r: 0, g: 155, b: 255, a: 255 } },
        selection_bg_fill: Color { r: 0, g: 100, b: 200, a: 255 },
        window_frame: window_frame(),
        canvas_frame: canvas_frame(),
    }
}

#[test]
fn pin_size_default_is_fraction_of_interact_height() {
    let style = SnarlStyle::new();
    // 20 units * 0.6 = 12 units
    assert_eq!(style.get_pin_size(1000, &ambient()), 12000);
}

#[test]
fn pin_size_override_is_scaled_by_zoom() {
    let style = SnarlStyle { pin_size: Some(10000), ..SnarlStyle::new() };
    assert_eq!(style.get_pin_size(1000, &ambient()), 10000);
    assert_eq!(style.get_pin_size(2000, &ambient()), 20000);
    assert_eq!(style.get_pin_size(500, &ambient()), 5000);
}

#[test]
fn pin_fill_default_is_ambient_active_fill() {
    let style = SnarlStyle::new();
    assert_eq!(style.get_pin_fill(&ambient()), OPAQUE_BLUE);
}

#[test]
fn pin_fill_override_wins_over_ambient() {
    let style = SnarlStyle { pin_fill: Some(OPAQUE_RED), ..SnarlStyle::new() };
    assert_eq!(style.get_pin_fill(&ambient()), OPAQUE_RED);
}

#[test]
fn wire_width_defaults_to_tenth_of_resolved_pin_size() {
    // pin size override 10 units at zoom 2.0 resolves to 20 units,
    // a tenth of which is 2 units
    let style = SnarlStyle { pin_size: Some(10000), ..SnarlStyle::new() };
    assert_eq!(style.get_wire_width(2000, &ambient()), 2000);
}

#[test]
fn wire_width_default_from_ambient_pin_size() {
    let style = SnarlStyle::new();
    // pin size default 12 units, wire width a tenth of it
    assert_eq!(style.get_wire_width(1000, &ambient()), 1200);
}

#[test]
fn wire_width_override_is_scaled_by_zoom() {
    let style = SnarlStyle { wire_width: Some(3000), ..SnarlStyle::new() };
    assert_eq!(style.get_wire_width(2000, &ambient()), 6000);
}

#[test]
fn wire_frame_size_defaults_to_three_pin_sizes() {
    let style = SnarlStyle::new();
    assert_eq!(style.get_wire_frame_size(1000, &ambient()), 36000);
    let over = SnarlStyle { wire_frame_size: Some(50000), ..SnarlStyle::new() };
    assert_eq!(over.get_wire_frame_size(2000, &ambient()), 100000);
}

#[test]
fn pin_stroke_default_is_ambient_active_stroke() {
    let style = SnarlStyle::new();
    assert_eq!(style.get_pin_stroke(3000, &ambient()), ambient().active_bg_stroke);
}

#[test]
fn pin_stroke_override_width_is_scaled_color_kept() {
    let stroke = Stroke { width: 2000, color: OPAQUE_RED };
    let style = SnarlStyle { pin_stroke: Some(stroke), ..SnarlStyle::new() };
    let resolved = style.get_pin_stroke(1500, &ambient());
    assert_eq!(resolved.width, 3000);
    assert_eq!(resolved.color, OPAQUE_RED);
}

#[test]
fn enum_and_flag_defaults() {
    let style = SnarlStyle::new();
    assert_eq!(style.get_node_layout(), NodeLayout::Basic);
    assert_eq!(style.get_pin_shape(), PinShape::Circle);
    assert_eq!(style.get_pin_placement(), PinPlacement::Inside);
    assert_eq!(style.get_wire_layer(), WireLayer::BehindNodes);
    assert_eq!(style.get_wire_style(1000), WireStyle::Bezier5);
    assert!(style.get_collapsible());
    assert!(style.get_downscale_wire_frame());
    assert!(!style.get_upscale_wire_frame());
    assert!(style.get_centering());
    assert!(!style.get_select_rect_contained());
}

#[test]
fn enum_overrides_are_returned_unchanged() {
    let style = SnarlStyle {
        node_layout: Some(NodeLayout::Sandwich),
        pin_shape: Some(PinShape::Star),
        pin_placement: Some(PinPlacement::Outside { margin: 1500 }),
        wire_layer: Some(WireLayer::AboveNodes),
        collapsible: Some(false),
        downscale_wire_frame: Some(false),
        upscale_wire_frame: Some(true),
        centering: Some(false),
        select_rect_contained: Some(true),
        ..SnarlStyle::new()
    };
    assert_eq!(style.get_node_layout(), NodeLayout::Sandwich);
    assert_eq!(style.get_pin_shape(), PinShape::Star);
    assert_eq!(style.get_pin_placement(), PinPlacement::Outside { margin: 1500 });
    assert_eq!(style.get_wire_layer(), WireLayer::AboveNodes);
    assert!(!style.get_collapsible());
    assert!(!style.get_downscale_wire_frame());
    assert!(style.get_upscale_wire_frame());
    assert!(!style.get_centering());
    assert!(style.get_select_rect_contained());
}

#[test]
fn wire_style_corner_radius_is_scaled() {
    let style = SnarlStyle {
        wire_style: Some(WireStyle::AxisAligned { corner_radius: 4000 }),
        ..SnarlStyle::new()
    };
    assert_eq!(
        style.get_wire_style(1500),
        WireStyle::AxisAligned { corner_radius: 6000 }
    );
}

#[test]
fn header_drag_space_default_is_icon_width() {
    let style = SnarlStyle::new();
    assert_eq!(
        style.get_header_drag_space(9000, &ambient()),
        Size2 { x: 14000, y: 14000 }
    );
    let over = SnarlStyle {
        header_drag_space: Some(Size2 { x: 2000, y: 4000 }),
        ..SnarlStyle::new()
    };
    assert_eq!(
        over.get_header_drag_space(2000, &ambient()),
        Size2 { x: 4000, y: 8000 }
    );
}

#[test]
fn zoom_bound_defaults_are_fixed_scalars() {
    let style = SnarlStyle::new();
    assert_eq!(style.get_min_scale(), 200);
    assert_eq!(style.get_max_scale(), 5000);
    assert_eq!(style.get_scale_velocity(), 1000);
    let over = SnarlStyle {
        min_scale: Some(100),
        max_scale: Some(8000),
        scale_velocity: Some(2500),
        ..SnarlStyle::new()
    };
    assert_eq!(over.get_min_scale(), 100);
    assert_eq!(over.get_max_scale(), 8000);
    assert_eq!(over.get_scale_velocity(), 2500);
}

#[test]
fn node_frame_default_is_ambient_window_frame() {
    let style = SnarlStyle::new();
    assert_eq!(style.get_node_frame(1000, &ambient()), window_frame());
}

#[test]
fn node_frame_override_is_scaled_by_zoom() {
    let style = SnarlStyle { node_frame: Some(window_frame()), ..SnarlStyle::new() };
    let resolved = style.get_node_frame(2000, &ambient());
    assert_eq!(resolved.inner_margin, margin(12000));
    assert_eq!(resolved.corner_radius, 12000);
    assert_eq!(resolved.shadow.blur, 8000);
    assert_eq!(resolved.stroke.width, 2000);
    assert_eq!(resolved.fill, window_frame().fill);
}

#[test]
fn header_frame_default_drops_shadow_and_keeps_fill() {
    let style = SnarlStyle::new();
    let header = style.get_header_frame(1000, &ambient());
    let node = style.get_node_frame(1000, &ambient());
    assert_eq!(header.shadow.blur, 0);
    assert_eq!(header.shadow.spread, 0);
    assert_eq!(header.fill, node.fill);
    assert_eq!(header.inner_margin, node.inner_margin);
    assert_eq!(header.stroke, node.stroke);
}

#[test]
fn bg_frame_default_is_canvas_frame_and_never_scaled() {
    let style = SnarlStyle::new();
    assert_eq!(style.get_bg_frame(&ambient()), canvas_frame());
    let over = SnarlStyle { bg_frame: Some(window_frame()), ..SnarlStyle::new() };
    assert_eq!(over.get_bg_frame(&ambient()), window_frame());
}

#[test]
fn bg_pattern_stroke_default_is_noninteractive_stroke() {
    let style = SnarlStyle::new();
    assert_eq!(
        style.get_bg_pattern_stroke(1000, &ambient()),
        ambient().noninteractive_bg_stroke
    );
    let over = SnarlStyle {
        bg_pattern_stroke: Some(Stroke { width: 4000, color: OPAQUE_RED }),
        ..SnarlStyle::new()
    };
    assert_eq!(over.get_bg_pattern_stroke(500, &ambient()).width, 2000);
}

#[test]
fn select_stroke_default_dims_ambient_accent() {
    let style = SnarlStyle::new();
    let resolved = style.get_select_stroke(1000, &ambient());
    assert_eq!(resolved.width, 1000);
    // each channel of (0, 155, 255, 255) at half opacity, rounded down
    assert_eq!(resolved.color, Color { r: 0, g: 77, b: 127, a: 127 });
}

#[test]
fn select_fill_default_dims_ambient_accent() {
    let style = SnarlStyle::new();
    // each channel of (0, 100, 200, 255) at 0.3 opacity, rounded down
    assert_eq!(
        style.get_select_fill(&ambient()),
        Color { r: 0, g: 30, b: 60, a: 76 }
    );
    let over = SnarlStyle { select_fill: Some(OPAQUE_RED), ..SnarlStyle::new() };
    assert_eq!(over.get_select_fill(&ambient()), OPAQUE_RED);
}

#[test]
fn select_style_default_assembles_resolved_parts() {
    let style = SnarlStyle::new();
    let resolved = style.get_select_style(1000, &ambient());
    assert_eq!(resolved.margin, margin(8000));
    assert_eq!(resolved.corner_radius, 6000);
    assert_eq!(resolved.fill, style.get_select_fill(&ambient()));
    assert_eq!(resolved.stroke, style.get_select_stroke(1000, &ambient()));
}

#[test]
fn select_style_override_is_scaled_by_zoom() {
    let over = SelectionStyle {
        margin: margin(1000),
        corner_radius: 2000,
        fill: OPAQUE_RED,
        stroke: Stroke { width: 500, color: OPAQUE_BLUE },
    };
    let style = SnarlStyle { select_style: Some(over), ..SnarlStyle::new() };
    let resolved = style.get_select_style(3000, &ambient());
    assert_eq!(resolved.margin, margin(3000));
    assert_eq!(resolved.corner_radius, 6000);
    assert_eq!(resolved.fill, OPAQUE_RED);
    assert_eq!(resolved.stroke, Stroke { width: 1500, color: OPAQUE_BLUE });
}

#[test]
fn default_record_has_no_override() {
    let style = SnarlStyle::default();
    assert_eq!(style, SnarlStyle::new());
    assert_eq!(style.bg_pattern, None::<BackgroundPattern>);
}
