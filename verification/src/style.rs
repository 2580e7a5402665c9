//! The style resolver.
//!
//! [`SnarlStyle`] is a flat record of independently optional overrides, one
//! per visual parameter. Every getter resolves one parameter: if the
//! override is set it wins, scaled by the viewport zoom where the
//! parameter is an on-screen dimension; otherwise the getter computes a
//! default, either a fixed constant, a derivation from another resolved
//! parameter, or a value copied from the host's ambient style snapshot.
//! Nothing is cached: each getter is a pure function of the record, the
//! zoom and the snapshot.

use vstd::prelude::*;

use crate::types::AmbientStyle;
use crate::types::BackgroundPattern;
use crate::types::Color;
use crate::types::Frame;
use crate::types::MAX_SCALED;
use crate::types::MAX_ZOOM;
use crate::types::NodeLayout;
use crate::types::PinPlacement;
use crate::types::PinShape;
use crate::types::SelectionStyle;
use crate::types::Size2;
use crate::types::Stroke;
use crate::types::WireLayer;
use crate::types::WireStyle;
use crate::types::MILLIS_PER_UNIT;
use crate::types::dim_ok;
use crate::types::lemma_scale_identity;
use crate::types::lemma_unit_zoom_frame;
use crate::types::lemma_unit_zoom_selection_style;
use crate::types::lemma_unit_zoom_size2;
use crate::types::lemma_unit_zoom_stroke;
use crate::types::lemma_unit_zoom_wire_style;
use crate::types::scale_dim;
use crate::types::scale_factor;
use crate::types::spec_scaled;

verus! {

/// Pin size default: this thousandths fraction of the ambient interactive
/// widget height.
pub const PIN_SIZE_FACTOR: u64 = 600;

/// Wire width default: this thousandths fraction of the resolved pin size.
pub const WIRE_WIDTH_FACTOR: u64 = 100;

/// Wire curvature frame default: this thousandths multiple of the
/// resolved pin size.
pub const WIRE_FRAME_FACTOR: u64 = 3000;

/// Selection stroke default: the ambient selection stroke color at this
/// thousandths opacity.
pub const SELECT_STROKE_DIM: u64 = 500;

/// Selection fill default: the ambient selection fill color at this
/// thousandths opacity.
pub const SELECT_FILL_DIM: u64 = 300;

/// Smallest viewport zoom by default, in thousandths.
pub const MIN_SCALE_DEFAULT: u64 = 200;

/// Largest viewport zoom by default, in thousandths.
pub const MAX_SCALE_DEFAULT: u64 = 5000;

/// Zoom velocity by default, in thousandths.
pub const SCALE_VELOCITY_DEFAULT: u64 = 1000;

/// Style for rendering the canvas: a flat record of optional overrides.
/// Every field defaults independently; leaving one unset never implies a
/// default for a sibling.
#[derive(Clone, Copy, PartialEq, Eq, Structural, Debug)]
pub struct SnarlStyle {
    /// Controls how nodes are laid out. Defaults to [`NodeLayout::Basic`].
    pub node_layout: Option<NodeLayout>,
    /// Frame used to draw nodes. Defaults to the ambient window frame.
    pub node_frame: Option<Frame>,
    /// Frame used to draw node headers. Defaults to the resolved node
    /// frame without its shadow, fill left as it is.
    pub header_frame: Option<Frame>,
    /// Blank space for dragging a node by its header. Defaults to the
    /// ambient icon width in both axes.
    pub header_drag_space: Option<Size2>,
    /// Whether nodes can be collapsed. Defaults to true.
    pub collapsible: Option<bool>,
    /// Size of pins. Defaults to a fraction of the ambient interactive
    /// widget height.
    pub pin_size: Option<u64>,
    /// Fill color for pins. Defaults to the ambient active widget
    /// background fill.
    pub pin_fill: Option<Color>,
    /// Stroke for pins. Defaults to the ambient active widget background
    /// stroke.
    pub pin_stroke: Option<Stroke>,
    /// Shape of pins. Defaults to [`PinShape::Circle`].
    pub pin_shape: Option<PinShape>,
    /// Placement of pins. Defaults to [`PinPlacement::Inside`].
    pub pin_placement: Option<PinPlacement>,
    /// Width of wires. Defaults to a tenth of the resolved pin size.
    pub wire_width: Option<u64>,
    /// Size of the wire frame, which controls the curvature of wires.
    /// Defaults to three times the resolved pin size.
    pub wire_frame_size: Option<u64>,
    /// Whether to downscale the wire frame when nodes are close.
    /// Defaults to true.
    pub downscale_wire_frame: Option<bool>,
    /// Whether to upscale the wire frame when nodes are far apart.
    /// Defaults to false.
    pub upscale_wire_frame: Option<bool>,
    /// Visual variant of wires. Defaults to [`WireStyle::Bezier5`].
    pub wire_style: Option<WireStyle>,
    /// Layer where wires are rendered. Defaults to
    /// [`WireLayer::BehindNodes`].
    pub wire_layer: Option<WireLayer>,
    /// Frame used to draw the background. Defaults to the ambient canvas
    /// frame.
    pub bg_frame: Option<Frame>,
    /// Background pattern. Defaults to a grid.
    pub bg_pattern: Option<BackgroundPattern>,
    /// Stroke for the background pattern. Defaults to the ambient
    /// non-interactive widget background stroke.
    pub bg_pattern_stroke: Option<Stroke>,
    /// Minimum viewport zoom that can be set, in thousandths.
    pub min_scale: Option<u64>,
    /// Maximum viewport zoom that can be set, in thousandths.
    pub max_scale: Option<u64>,
    /// Velocity of the viewport zoom when scaling with the mouse wheel,
    /// in thousandths.
    pub scale_velocity: Option<u64>,
    /// Enable centering by double click on the background. Defaults to
    /// true.
    pub centering: Option<bool>,
    /// Stroke for the selection highlight. Defaults to the ambient
    /// selection stroke at reduced opacity.
    pub select_stroke: Option<Stroke>,
    /// Fill for the selection highlight. Defaults to the ambient
    /// selection fill at reduced opacity.
    pub select_fill: Option<Color>,
    /// If true, only nodes fully contained in the selection rect are
    /// selected; if false, intersecting nodes are too. Defaults to false.
    pub select_rect_contained: Option<bool>,
    /// Style for the selection highlight as one record. Defaults to the
    /// ambient window margin and rounding with the resolved selection
    /// fill and stroke.
    pub select_style: Option<SelectionStyle>,
}

impl SnarlStyle {
    /// Every dimension that the zoom scales is within bounds.
    pub open spec fn wf(self) -> bool {
        &&& (self.node_frame matches Some(f) ==> f.wf())
        &&& (self.header_frame matches Some(f) ==> f.wf())
        &&& (self.header_drag_space matches Some(v) ==> v.wf())
        &&& (self.pin_size matches Some(v) ==> dim_ok(v))
        &&& (self.pin_stroke matches Some(s) ==> s.wf())
        &&& (self.wire_width matches Some(v) ==> dim_ok(v))
        &&& (self.wire_frame_size matches Some(v) ==> dim_ok(v))
        &&& (self.wire_style matches Some(w) ==> w.wf())
        &&& (self.bg_pattern_stroke matches Some(s) ==> s.wf())
        &&& (self.select_stroke matches Some(s) ==> s.wf())
        &&& (self.select_style matches Some(s) ==> s.wf())
    }

    /// The record with no override set.
    pub open spec fn spec_default() -> SnarlStyle {
        SnarlStyle {
            node_layout: None,
            node_frame: None,
            header_frame: None,
            header_drag_space: None,
            collapsible: None,
            pin_size: None,
            pin_fill: None,
            pin_stroke: None,
            pin_shape: None,
            pin_placement: None,
            wire_width: None,
            wire_frame_size: None,
            downscale_wire_frame: None,
            upscale_wire_frame: None,
            wire_style: None,
            wire_layer: None,
            bg_frame: None,
            bg_pattern: None,
            bg_pattern_stroke: None,
            min_scale: None,
            max_scale: None,
            scale_velocity: None,
            centering: None,
            select_stroke: None,
            select_fill: None,
            select_rect_contained: None,
            select_style: None,
        }
    }

    /// Creates a record with no override set.
    pub fn new() -> (r: SnarlStyle)
        ensures
            r == SnarlStyle::spec_default(),
            r.wf(),
    {
        SnarlStyle {
            node_layout: None,
            node_frame: None,
            header_frame: None,
            header_drag_space: None,
            collapsible: None,
            pin_size: None,
            pin_fill: None,
            pin_stroke: None,
            pin_shape: None,
            pin_placement: None,
            wire_width: None,
            wire_frame_size: None,
            downscale_wire_frame: None,
            upscale_wire_frame: None,
            wire_style: None,
            wire_layer: None,
            bg_frame: None,
            bg_pattern: None,
            bg_pattern_stroke: None,
            min_scale: None,
            max_scale: None,
            scale_velocity: None,
            centering: None,
            select_stroke: None,
            select_fill: None,
            select_rect_contained: None,
            select_style: None,
        }
    }

    /// Resolved node layout.
    pub open spec fn spec_node_layout(self) -> NodeLayout {
        match self.node_layout {
            Some(v) => v,
            None => NodeLayout::Basic,
        }
    }

    /// Resolves the node layout: the override, or basic layout.
    pub fn get_node_layout(&self) -> (r: NodeLayout)
        ensures
            r == self.spec_node_layout(),
    {
        match self.node_layout {
            Some(v) => v,
            None => NodeLayout::Basic,
        }
    }

    /// Resolved pin size.
    pub open spec fn spec_pin_size(self, scale: int, style: AmbientStyle) -> int {
        match self.pin_size {
            Some(v) => spec_scaled(v as int, scale),
            None => spec_scaled(style.interact_size_y as int, PIN_SIZE_FACTOR as int),
        }
    }

    /// Resolves the pin size: the override scaled by the zoom, or a
    /// fraction of the ambient interactive widget height.
    pub fn get_pin_size(&self, scale: u64, style: &AmbientStyle) -> (r: u64)
        requires
            self.wf(),
            style.wf(),
            scale <= MAX_ZOOM,
        ensures
            r == self.spec_pin_size(scale as int, *style),
            r <= MAX_SCALED,
    {
        match self.pin_size {
            Some(v) => scale_dim(v, scale),
            None => scale_dim(style.interact_size_y, PIN_SIZE_FACTOR),
        }
    }

    /// Resolved pin fill color.
    pub open spec fn spec_pin_fill(self, style: AmbientStyle) -> Color {
        match self.pin_fill {
            Some(c) => c,
            None => style.active_bg_fill,
        }
    }

    /// Resolves the pin fill: the override, or the ambient active widget
    /// background fill. Colors are not dimensions and are never scaled.
    pub fn get_pin_fill(&self, style: &AmbientStyle) -> (r: Color)
        ensures
            r == self.spec_pin_fill(*style),
    {
        match self.pin_fill {
            Some(c) => c,
            None => style.active_bg_fill,
        }
    }

    /// Resolved pin stroke.
    pub open spec fn spec_pin_stroke(self, scale: int, style: AmbientStyle) -> Stroke {
        match self.pin_stroke {
            Some(s) => s.spec_zoomed(scale),
            None => style.active_bg_stroke,
        }
    }

    /// Resolves the pin stroke: the override scaled by the zoom, or the
    /// ambient active widget background stroke.
    pub fn get_pin_stroke(&self, scale: u64, style: &AmbientStyle) -> (r: Stroke)
        requires
            self.wf(),
            scale <= MAX_ZOOM,
        ensures
            r == self.spec_pin_stroke(scale as int, *style),
    {
        match self.pin_stroke {
            Some(s) => s.zoomed(scale),
            None => Stroke {
                width: style.active_bg_stroke.width,
                color: style.active_bg_stroke.color,
            },
        }
    }

    /// Resolved pin shape.
    pub open spec fn spec_pin_shape(self) -> PinShape {
        match self.pin_shape {
            Some(v) => v,
            None => PinShape::Circle,
        }
    }

    /// Resolves the pin shape: the override, or a circle.
    pub fn get_pin_shape(&self) -> (r: PinShape)
        ensures
            r == self.spec_pin_shape(),
    {
        match self.pin_shape {
            Some(v) => v,
            None => PinShape::Circle,
        }
    }

    /// Resolved pin placement.
    pub open spec fn spec_pin_placement(self) -> PinPlacement {
        match self.pin_placement {
            Some(v) => v,
            None => PinPlacement::Inside,
        }
    }

    /// Resolves the pin placement: the override, or placement inside the
    /// node frame.
    pub fn get_pin_placement(&self) -> (r: PinPlacement)
        ensures
            r == self.spec_pin_placement(),
    {
        match self.pin_placement {
            Some(v) => v,
            None => PinPlacement::Inside,
        }
    }

    /// Resolved wire width.
    pub open spec fn spec_wire_width(self, scale: int, style: AmbientStyle) -> int {
        match self.wire_width {
            Some(v) => spec_scaled(v as int, scale),
            None => spec_scaled(self.spec_pin_size(scale, style), WIRE_WIDTH_FACTOR as int),
        }
    }

    /// Resolves the wire width: the override scaled by the zoom, or a
    /// tenth of the resolved pin size.
    pub fn get_wire_width(&self, scale: u64, style: &AmbientStyle) -> (r: u64)
        requires
            self.wf(),
            style.wf(),
            scale <= MAX_ZOOM,
        ensures
            r == self.spec_wire_width(scale as int, *style),
    {
        match self.wire_width {
            Some(v) => scale_dim(v, scale),
            None => {
                let pin = self.get_pin_size(scale, style);
                scale_factor(pin, WIRE_WIDTH_FACTOR)
            },
        }
    }

    /// Resolved wire frame size.
    pub open spec fn spec_wire_frame_size(self, scale: int, style: AmbientStyle) -> int {
        match self.wire_frame_size {
            Some(v) => spec_scaled(v as int, scale),
            None => spec_scaled(self.spec_pin_size(scale, style), WIRE_FRAME_FACTOR as int),
        }
    }

    /// Resolves the wire frame size: the override scaled by the zoom, or
    /// three times the resolved pin size.
    pub fn get_wire_frame_size(&self, scale: u64, style: &AmbientStyle) -> (r: u64)
        requires
            self.wf(),
            style.wf(),
            scale <= MAX_ZOOM,
        ensures
            r == self.spec_wire_frame_size(scale as int, *style),
    {
        match self.wire_frame_size {
            Some(v) => scale_dim(v, scale),
            None => {
                let pin = self.get_pin_size(scale, style);
                scale_factor(pin, WIRE_FRAME_FACTOR)
            },
        }
    }

    /// Resolved downscaling flag for the wire frame.
    pub open spec fn spec_downscale_wire_frame(self) -> bool {
        match self.downscale_wire_frame {
            Some(v) => v,
            None => true,
        }
    }

    /// Resolves whether the wire frame is downscaled when nodes are
    /// close: the override, or true.
    pub fn get_downscale_wire_frame(&self) -> (r: bool)
        ensures
            r == self.spec_downscale_wire_frame(),
    {
        match self.downscale_wire_frame {
            Some(v) => v,
            None => true,
        }
    }

    /// Resolved upscaling flag for the wire frame.
    pub open spec fn spec_upscale_wire_frame(self) -> bool {
        match self.upscale_wire_frame {
            Some(v) => v,
            None => false,
        }
    }

    /// Resolves whether the wire frame is upscaled when nodes are far
    /// apart: the override, or false.
    pub fn get_upscale_wire_frame(&self) -> (r: bool)
        ensures
            r == self.spec_upscale_wire_frame(),
    {
        match self.upscale_wire_frame {
            Some(v) => v,
            None => false,
        }
    }

    /// Resolved wire style.
    pub open spec fn spec_wire_style(self, scale: int) -> WireStyle {
        match self.wire_style {
            Some(w) => w.spec_zoomed(scale),
            None => WireStyle::Bezier5,
        }
    }

    /// Resolves the visual variant of wires: the override with its
    /// corner radius scaled by the zoom, or a quintic bezier.
    pub fn get_wire_style(&self, scale: u64) -> (r: WireStyle)
        requires
            self.wf(),
            scale <= MAX_ZOOM,
        ensures
            r == self.spec_wire_style(scale as int),
    {
        match self.wire_style {
            Some(w) => w.zoomed(scale),
            None => WireStyle::Bezier5,
        }
    }

    /// Resolved wire layer.
    pub open spec fn spec_wire_layer(self) -> WireLayer {
        match self.wire_layer {
            Some(v) => v,
            None => WireLayer::BehindNodes,
        }
    }

    /// Resolves the layer where wires are rendered: the override, or
    /// behind the nodes.
    pub fn get_wire_layer(&self) -> (r: WireLayer)
        ensures
            r == self.spec_wire_layer(),
    {
        match self.wire_layer {
            Some(v) => v,
            None => WireLayer::BehindNodes,
        }
    }

    /// Resolved header drag space.
    pub open spec fn spec_header_drag_space(self, scale: int, style: AmbientStyle) -> Size2 {
        match self.header_drag_space {
            Some(v) => v.spec_zoomed(scale),
            None => Size2 { x: style.icon_width, y: style.icon_width },
        }
    }

    /// Resolves the blank space for dragging a node by its header: the
    /// override scaled by the zoom, or the ambient icon width in both
    /// axes.
    pub fn get_header_drag_space(&self, scale: u64, style: &AmbientStyle) -> (r: Size2)
        requires
            self.wf(),
            scale <= MAX_ZOOM,
        ensures
            r == self.spec_header_drag_space(scale as int, *style),
    {
        match self.header_drag_space {
            Some(v) => v.zoomed(scale),
            None => Size2 { x: style.icon_width, y: style.icon_width },
        }
    }

    /// Resolved collapsibility flag.
    pub open spec fn spec_collapsible(self) -> bool {
        match self.collapsible {
            Some(v) => v,
            None => true,
        }
    }

    /// Resolves whether nodes can be collapsed: the override, or true.
    pub fn get_collapsible(&self) -> (r: bool)
        ensures
            r == self.spec_collapsible(),
    {
        match self.collapsible {
            Some(v) => v,
            None => true,
        }
    }

    /// Resolved background frame.
    pub open spec fn spec_bg_frame(self, style: AmbientStyle) -> Frame {
        match self.bg_frame {
            Some(f) => f,
            None => style.canvas_frame,
        }
    }

    /// Resolves the background frame: the override, or the ambient
    /// canvas frame. This parameter is not scaled by the zoom.
    pub fn get_bg_frame(&self, style: &AmbientStyle) -> (r: Frame)
        ensures
            r == self.spec_bg_frame(*style),
    {
        match self.bg_frame {
            Some(f) => f,
            None => style.canvas_frame,
        }
    }

    /// Resolved background pattern stroke.
    pub open spec fn spec_bg_pattern_stroke(self, scale: int, style: AmbientStyle) -> Stroke {
        match self.bg_pattern_stroke {
            Some(s) => s.spec_zoomed(scale),
            None => style.noninteractive_bg_stroke,
        }
    }

    /// Resolves the stroke for the background pattern: the override
    /// scaled by the zoom, or the ambient non-interactive widget
    /// background stroke.
    pub fn get_bg_pattern_stroke(&self, scale: u64, style: &AmbientStyle) -> (r: Stroke)
        requires
            self.wf(),
            scale <= MAX_ZOOM,
        ensures
            r == self.spec_bg_pattern_stroke(scale as int, *style),
    {
        match self.bg_pattern_stroke {
            Some(s) => s.zoomed(scale),
            None => style.noninteractive_bg_stroke,
        }
    }

    /// Resolved minimum viewport zoom.
    pub open spec fn spec_min_scale(self) -> u64 {
        match self.min_scale {
            Some(v) => v,
            None => MIN_SCALE_DEFAULT,
        }
    }

    /// Resolves the minimum viewport zoom: the override, or one fifth.
    /// Zoom bounds are plain scalars, never scaled and never ambient.
    pub fn get_min_scale(&self) -> (r: u64)
        ensures
            r == self.spec_min_scale(),
    {
        match self.min_scale {
            Some(v) => v,
            None => MIN_SCALE_DEFAULT,
        }
    }

    /// Resolved maximum viewport zoom.
    pub open spec fn spec_max_scale(self) -> u64 {
        match self.max_scale {
            Some(v) => v,
            None => MAX_SCALE_DEFAULT,
        }
    }

    /// Resolves the maximum viewport zoom: the override, or fivefold.
    pub fn get_max_scale(&self) -> (r: u64)
        ensures
            r == self.spec_max_scale(),
    {
        match self.max_scale {
            Some(v) => v,
            None => MAX_SCALE_DEFAULT,
        }
    }

    /// Resolved zoom velocity.
    pub open spec fn spec_scale_velocity(self) -> u64 {
        match self.scale_velocity {
            Some(v) => v,
            None => SCALE_VELOCITY_DEFAULT,
        }
    }

    /// Resolves the zoom velocity: the override, or one.
    pub fn get_scale_velocity(&self) -> (r: u64)
        ensures
            r == self.spec_scale_velocity(),
    {
        match self.scale_velocity {
            Some(v) => v,
            None => SCALE_VELOCITY_DEFAULT,
        }
    }

    /// Resolved node frame.
    pub open spec fn spec_node_frame(self, scale: int, style: AmbientStyle) -> Frame {
        match self.node_frame {
            Some(f) => f.spec_zoomed(scale),
            None => style.window_frame,
        }
    }

    /// Resolves the frame used to draw nodes: the override scaled by the
    /// zoom, or the ambient window frame.
    pub fn get_node_frame(&self, scale: u64, style: &AmbientStyle) -> (r: Frame)
        requires
            self.wf(),
            scale <= MAX_ZOOM,
        ensures
            r == self.spec_node_frame(scale as int, *style),
    {
        match self.node_frame {
            Some(f) => f.zoomed(scale),
            None => style.window_frame,
        }
    }

    /// Resolved header frame.
    pub open spec fn spec_header_frame(self, scale: int, style: AmbientStyle) -> Frame {
        match self.header_frame {
            Some(f) => f.spec_zoomed(scale),
            None => self.spec_node_frame(scale, style).spec_without_shadow(),
        }
    }

    /// Resolves the frame used to draw node headers: the override scaled
    /// by the zoom, or the resolved node frame with its shadow removed
    /// and its fill left as it is.
    pub fn get_header_frame(&self, scale: u64, style: &AmbientStyle) -> (r: Frame)
        requires
            self.wf(),
            scale <= MAX_ZOOM,
        ensures
            r == self.spec_header_frame(scale as int, *style),
    {
        match self.header_frame {
            Some(f) => f.zoomed(scale),
            None => self.get_node_frame(scale, style).without_shadow(),
        }
    }

    /// Resolved centering flag.
    pub open spec fn spec_centering(self) -> bool {
        match self.centering {
            Some(v) => v,
            None => true,
        }
    }

    /// Resolves whether a double click on the background centers the
    /// viewport: the override, or true.
    pub fn get_centering(&self) -> (r: bool)
        ensures
            r == self.spec_centering(),
    {
        match self.centering {
            Some(v) => v,
            None => true,
        }
    }

    /// Resolved selection stroke.
    pub open spec fn spec_select_stroke(self, scale: int, style: AmbientStyle) -> Stroke {
        match self.select_stroke {
            Some(s) => s.spec_zoomed(scale),
            None => Stroke {
                width: style.selection_stroke.width,
                color: style.selection_stroke.color.spec_dimmed(SELECT_STROKE_DIM as int),
            },
        }
    }

    /// Resolves the stroke for the selection highlight: the override
    /// scaled by the zoom, or the ambient selection stroke with its
    /// color at half opacity.
    pub fn get_select_stroke(&self, scale: u64, style: &AmbientStyle) -> (r: Stroke)
        requires
            self.wf(),
            scale <= MAX_ZOOM,
        ensures
            r == self.spec_select_stroke(scale as int, *style),
    {
        match self.select_stroke {
            Some(s) => s.zoomed(scale),
            None => Stroke {
                width: style.selection_stroke.width,
                color: style.selection_stroke.color.dimmed(SELECT_STROKE_DIM),
            },
        }
    }

    /// Resolved selection fill.
    pub open spec fn spec_select_fill(self, style: AmbientStyle) -> Color {
        match self.select_fill {
            Some(c) => c,
            None => style.selection_bg_fill.spec_dimmed(SELECT_FILL_DIM as int),
        }
    }

    /// Resolves the fill for the selection highlight: the override, or
    /// the ambient selection fill at reduced opacity.
    pub fn get_select_fill(&self, style: &AmbientStyle) -> (r: Color)
        ensures
            r == self.spec_select_fill(*style),
    {
        match self.select_fill {
            Some(c) => c,
            None => style.selection_bg_fill.dimmed(SELECT_FILL_DIM),
        }
    }

    /// Resolved rect-selection containment flag.
    pub open spec fn spec_select_rect_contained(self) -> bool {
        match self.select_rect_contained {
            Some(v) => v,
            None => false,
        }
    }

    /// Resolves how rect selection works: the override, or false, so
    /// that intersecting nodes are selected too.
    pub fn get_select_rect_contained(&self) -> (r: bool)
        ensures
            r == self.spec_select_rect_contained(),
    {
        match self.select_rect_contained {
            Some(v) => v,
            None => false,
        }
    }

    /// Resolved selection highlight style.
    pub open spec fn spec_select_style(self, scale: int, style: AmbientStyle) -> SelectionStyle {
        match self.select_style {
            Some(s) => s.spec_zoomed(scale),
            None => SelectionStyle {
                margin: style.window_margin,
                corner_radius: style.window_corner_radius,
                fill: self.spec_select_fill(style),
                stroke: self.spec_select_stroke(scale, style),
            },
        }
    }

    /// Resolves the selection highlight as one record: the override
    /// scaled by the zoom, or the ambient window margin and rounding
    /// assembled with the resolved selection fill and stroke.
    pub fn get_select_style(&self, scale: u64, style: &AmbientStyle) -> (r: SelectionStyle)
        requires
            self.wf(),
            scale <= MAX_ZOOM,
        ensures
            r == self.spec_select_style(scale as int, *style),
    {
        match self.select_style {
            Some(s) => s.zoomed(scale),
            None => SelectionStyle {
                margin: style.window_margin,
                corner_radius: style.window_corner_radius,
                fill: self.get_select_fill(style),
                stroke: self.get_select_stroke(scale, style),
            },
        }
    }
}

/// Resolution law: when an override is set, the resolved value is that
/// override — scaled by the zoom where the parameter is an on-screen
/// dimension, so at 1:1 zoom the override itself — and never a default;
/// parameters that are not zoom-scalable return the override unchanged at
/// every zoom. When no override is set, the resolved value is the
/// documented default by the very definition of the resolution functions.
pub proof fn lemma_override_resolution(s: SnarlStyle, style: AmbientStyle, scale: int)
    ensures
        s.node_layout matches Some(v) ==> s.spec_node_layout() == v,
        s.pin_size matches Some(v) ==> s.spec_pin_size(MILLIS_PER_UNIT as int, style) == v,
        s.pin_fill matches Some(c) ==> s.spec_pin_fill(style) == c,
        s.pin_stroke matches Some(v) ==> s.spec_pin_stroke(MILLIS_PER_UNIT as int, style) == v,
        s.pin_shape matches Some(v) ==> s.spec_pin_shape() == v,
        s.pin_placement matches Some(v) ==> s.spec_pin_placement() == v,
        s.wire_width matches Some(v) ==> s.spec_wire_width(MILLIS_PER_UNIT as int, style) == v,
        s.wire_frame_size matches Some(v) ==> s.spec_wire_frame_size(
            MILLIS_PER_UNIT as int,
            style,
        ) == v,
        s.downscale_wire_frame matches Some(v) ==> s.spec_downscale_wire_frame() == v,
        s.upscale_wire_frame matches Some(v) ==> s.spec_upscale_wire_frame() == v,
        s.wire_style matches Some(v) ==> s.spec_wire_style(MILLIS_PER_UNIT as int) == v,
        s.wire_layer matches Some(v) ==> s.spec_wire_layer() == v,
        s.header_drag_space matches Some(v) ==> s.spec_header_drag_space(
            MILLIS_PER_UNIT as int,
            style,
        ) == v,
        s.collapsible matches Some(v) ==> s.spec_collapsible() == v,
        s.bg_frame matches Some(v) ==> s.spec_bg_frame(style) == v,
        s.bg_pattern_stroke matches Some(v) ==> s.spec_bg_pattern_stroke(
            MILLIS_PER_UNIT as int,
            style,
        ) == v,
        s.min_scale matches Some(v) ==> s.spec_min_scale() == v,
        s.max_scale matches Some(v) ==> s.spec_max_scale() == v,
        s.scale_velocity matches Some(v) ==> s.spec_scale_velocity() == v,
        s.node_frame matches Some(v) ==> s.spec_node_frame(MILLIS_PER_UNIT as int, style) == v,
        s.header_frame matches Some(v) ==> s.spec_header_frame(MILLIS_PER_UNIT as int, style)
            == v,
        s.centering matches Some(v) ==> s.spec_centering() == v,
        s.select_stroke matches Some(v) ==> s.spec_select_stroke(MILLIS_PER_UNIT as int, style)
            == v,
        s.select_fill matches Some(c) ==> s.spec_select_fill(style) == c,
        s.select_rect_contained matches Some(v) ==> s.spec_select_rect_contained() == v,
        s.select_style matches Some(v) ==> s.spec_select_style(MILLIS_PER_UNIT as int, style)
            == v,
        s.pin_size matches Some(v) ==> s.spec_pin_size(scale, style) == spec_scaled(
            v as int,
            scale,
        ),
        s.wire_width matches Some(v) ==> s.spec_wire_width(scale, style) == spec_scaled(
            v as int,
            scale,
        ),
        s.wire_frame_size matches Some(v) ==> s.spec_wire_frame_size(scale, style) == spec_scaled(
            v as int,
            scale,
        ),
        s.pin_stroke matches Some(v) ==> s.spec_pin_stroke(scale, style) == v.spec_zoomed(scale),
        s.wire_style matches Some(v) ==> s.spec_wire_style(scale) == v.spec_zoomed(scale),
        s.header_drag_space matches Some(v) ==> s.spec_header_drag_space(scale, style)
            == v.spec_zoomed(scale),
        s.bg_pattern_stroke matches Some(v) ==> s.spec_bg_pattern_stroke(scale, style)
            == v.spec_zoomed(scale),
        s.node_frame matches Some(v) ==> s.spec_node_frame(scale, style) == v.spec_zoomed(scale),
        s.header_frame matches Some(v) ==> s.spec_header_frame(scale, style) == v.spec_zoomed(
            scale,
        ),
        s.select_stroke matches Some(v) ==> s.spec_select_stroke(scale, style) == v.spec_zoomed(
            scale,
        ),
        s.select_style matches Some(v) ==> s.spec_select_style(scale, style) == v.spec_zoomed(
            scale,
        ),
{
    if let Some(v) = s.pin_size {
        lemma_scale_identity(v);
    }
    if let Some(v) = s.wire_width {
        lemma_scale_identity(v);
    }
    if let Some(v) = s.wire_frame_size {
        lemma_scale_identity(v);
    }
    if let Some(v) = s.pin_stroke {
        lemma_unit_zoom_stroke(v);
    }
    if let Some(v) = s.wire_style {
        lemma_unit_zoom_wire_style(v);
    }
    if let Some(v) = s.header_drag_space {
        lemma_unit_zoom_size2(v);
    }
    if let Some(v) = s.bg_pattern_stroke {
        lemma_unit_zoom_stroke(v);
    }
    if let Some(v) = s.node_frame {
        lemma_unit_zoom_frame(v);
    }
    if let Some(v) = s.header_frame {
        lemma_unit_zoom_frame(v);
    }
    if let Some(v) = s.select_stroke {
        lemma_unit_zoom_stroke(v);
    }
    if let Some(v) = s.select_style {
        lemma_unit_zoom_selection_style(v);
    }
}

impl Default for SnarlStyle {
    /// The record with no override set.
    fn default() -> (r: SnarlStyle)
        ensures
            r == SnarlStyle::spec_default(),
    {
        SnarlStyle::new()
    }
}

} // verus!
