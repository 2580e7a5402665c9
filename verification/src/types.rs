//! Value types of the canvas model.
//!
//! Every on-screen dimension (a size, a width, a margin) is a fixed-point
//! integer counting thousandths of a canvas unit, and the viewport zoom is
//! a thousandths factor (`1000` is 1:1). Scaling a dimension by the zoom is
//! then exact integer arithmetic: `v * f / 1000`, rounded toward zero.
//! Colors are plain 8-bit RGBA records.

use vstd::prelude::*;
use vstd::arithmetic::div_mod::lemma_div_is_ordered;
use vstd::arithmetic::mul::lemma_mul_upper_bound;

verus! {

/// One canvas unit, in fixed-point thousandths.
pub const MILLIS_PER_UNIT: u64 = 1000;

/// Largest dimension a style record or an ambient style may hold:
/// a billion canvas units, far beyond any real canvas, small enough that
/// scaling by the zoom can never overflow.
pub const MAX_DIMENSION: u64 = 1_000_000_000_000;

/// Largest zoom factor a caller may pass: a thousandfold magnification.
pub const MAX_ZOOM: u64 = 1_000_000;

/// Largest value a dimension scaled by the zoom can reach.
pub const MAX_SCALED: u64 = 1_000_000_000_000_000;

/// Largest constant factor the derived defaults use (three canvas units).
pub const MAX_FACTOR: u64 = 3000;

/// A fixed-point value scaled by a fixed-point factor.
pub open spec fn spec_scaled(v: int, f: int) -> int {
    (v * f) / (MILLIS_PER_UNIT as int)
}

/// A dimension within bounds.
pub open spec fn dim_ok(v: u64) -> bool {
    v <= MAX_DIMENSION
}

/// Scales a dimension by the zoom factor.
pub fn scale_dim(v: u64, f: u64) -> (r: u64)
    requires
        dim_ok(v),
        f <= MAX_ZOOM,
    ensures
        r == spec_scaled(v as int, f as int),
        r <= MAX_SCALED,
{
    proof {
        lemma_mul_upper_bound(v as int, MAX_DIMENSION as int, f as int, MAX_ZOOM as int);
        lemma_div_is_ordered(
            (v as int) * (f as int),
            (MAX_DIMENSION as int) * (MAX_ZOOM as int),
            MILLIS_PER_UNIT as int,
        );
    }
    (v * f) / MILLIS_PER_UNIT
}

/// Scales an already zoom-scaled value by a small constant factor, as the
/// derived defaults do.
pub fn scale_factor(v: u64, f: u64) -> (r: u64)
    requires
        v <= MAX_SCALED,
        f <= MAX_FACTOR,
    ensures
        r == spec_scaled(v as int, f as int),
{
    proof {
        lemma_mul_upper_bound(v as int, MAX_SCALED as int, f as int, MAX_FACTOR as int);
    }
    (v * f) / MILLIS_PER_UNIT
}

/// At 1:1 zoom, scaling changes nothing.
pub proof fn lemma_scale_identity(v: u64)
    ensures
        spec_scaled(v as int, MILLIS_PER_UNIT as int) == v,
{
    assert((v as int) * 1000 / 1000 == v as int) by (nonlinear_arith);
}

/// At 1:1 zoom, scaling a stroke changes nothing.
pub proof fn lemma_unit_zoom_stroke(st: Stroke)
    ensures
        st.spec_zoomed(MILLIS_PER_UNIT as int) == st,
{
    lemma_scale_identity(st.width);
}

/// At 1:1 zoom, scaling an extent changes nothing.
pub proof fn lemma_unit_zoom_size2(sz: Size2)
    ensures
        sz.spec_zoomed(MILLIS_PER_UNIT as int) == sz,
{
    lemma_scale_identity(sz.x);
    lemma_scale_identity(sz.y);
}

/// At 1:1 zoom, scaling a margin changes nothing.
pub proof fn lemma_unit_zoom_margin(m: Margin)
    ensures
        m.spec_zoomed(MILLIS_PER_UNIT as int) == m,
{
    lemma_scale_identity(m.left);
    lemma_scale_identity(m.right);
    lemma_scale_identity(m.top);
    lemma_scale_identity(m.bottom);
}

/// At 1:1 zoom, scaling a shadow changes nothing.
pub proof fn lemma_unit_zoom_shadow(sh: Shadow)
    ensures
        sh.spec_zoomed(MILLIS_PER_UNIT as int) == sh,
{
    lemma_scale_identity(sh.offset_x);
    lemma_scale_identity(sh.offset_y);
    lemma_scale_identity(sh.blur);
    lemma_scale_identity(sh.spread);
}

/// At 1:1 zoom, scaling a frame changes nothing.
pub proof fn lemma_unit_zoom_frame(fr: Frame)
    ensures
        fr.spec_zoomed(MILLIS_PER_UNIT as int) == fr,
{
    lemma_unit_zoom_margin(fr.inner_margin);
    lemma_unit_zoom_margin(fr.outer_margin);
    lemma_scale_identity(fr.corner_radius);
    lemma_unit_zoom_shadow(fr.shadow);
    lemma_unit_zoom_stroke(fr.stroke);
}

/// At 1:1 zoom, scaling a wire style changes nothing.
pub proof fn lemma_unit_zoom_wire_style(ws: WireStyle)
    ensures
        ws.spec_zoomed(MILLIS_PER_UNIT as int) == ws,
{
    match ws {
        WireStyle::AxisAligned { corner_radius } => lemma_scale_identity(corner_radius),
        _ => {},
    }
}

/// At 1:1 zoom, scaling a selection style changes nothing.
pub proof fn lemma_unit_zoom_selection_style(ss: SelectionStyle)
    ensures
        ss.spec_zoomed(MILLIS_PER_UNIT as int) == ss,
{
    lemma_unit_zoom_margin(ss.margin);
    lemma_scale_identity(ss.corner_radius);
    lemma_unit_zoom_stroke(ss.stroke);
}

/// An 8-bit RGBA color.
#[derive(Clone, Copy, PartialEq, Eq, Structural, Debug)]
pub struct Color {
    pub r: u8,
    pub g: u8,
    pub b: u8,
    pub a: u8,
}

/// One channel multiplied by a thousandths factor.
pub open spec fn spec_dim_channel(v: int, f: int) -> int {
    (v * f) / (MILLIS_PER_UNIT as int)
}

impl Color {
    /// The color with every channel multiplied by the thousandths factor
    /// `f`: the model's reduced-opacity accent.
    pub open spec fn spec_dimmed(self, f: int) -> Color {
        Color {
            r: spec_dim_channel(self.r as int, f) as u8,
            g: spec_dim_channel(self.g as int, f) as u8,
            b: spec_dim_channel(self.b as int, f) as u8,
            a: spec_dim_channel(self.a as int, f) as u8,
        }
    }

    /// Multiplies every channel by the thousandths factor `f`.
    pub fn dimmed(self, f: u64) -> (r: Color)
        requires
            f <= MILLIS_PER_UNIT,
        ensures
            r == self.spec_dimmed(f as int),
    {
        Color {
            r: dim_channel(self.r, f),
            g: dim_channel(self.g, f),
            b: dim_channel(self.b, f),
            a: dim_channel(self.a, f),
        }
    }
}

/// One channel multiplied by a thousandths factor of at most one.
fn dim_channel(v: u8, f: u64) -> (r: u8)
    requires
        f <= MILLIS_PER_UNIT,
    ensures
        r == spec_dim_channel(v as int, f as int),
{
    proof {
        lemma_mul_upper_bound(v as int, 255, f as int, MILLIS_PER_UNIT as int);
        lemma_div_is_ordered((v as int) * (f as int), 255000int, MILLIS_PER_UNIT as int);
    }
    (((v as u64) * f) / MILLIS_PER_UNIT) as u8
}

/// A line stroke: width and color.
#[derive(Clone, Copy, PartialEq, Eq, Structural, Debug)]
pub struct Stroke {
    pub width: u64,
    pub color: Color,
}

impl Stroke {
    /// Every dimension within bounds.
    pub open spec fn wf(self) -> bool {
        dim_ok(self.width)
    }

    /// The stroke with its width scaled; the color is not a dimension and
    /// keeps its value.
    pub open spec fn spec_zoomed(self, f: int) -> Stroke {
        Stroke { width: spec_scaled(self.width as int, f) as u64, color: self.color }
    }

    /// Scales the width by the zoom factor.
    pub fn zoomed(self, f: u64) -> (r: Stroke)
        requires
            self.wf(),
            f <= MAX_ZOOM,
        ensures
            r == self.spec_zoomed(f as int),
    {
        Stroke { width: scale_dim(self.width, f), color: self.color }
    }
}

/// A two-dimensional extent.
#[derive(Clone, Copy, PartialEq, Eq, Structural, Debug)]
pub struct Size2 {
    pub x: u64,
    pub y: u64,
}

impl Size2 {
    /// Every dimension within bounds.
    pub open spec fn wf(self) -> bool {
        dim_ok(self.x) && dim_ok(self.y)
    }

    /// Both components scaled.
    pub open spec fn spec_zoomed(self, f: int) -> Size2 {
        Size2 {
            x: spec_scaled(self.x as int, f) as u64,
            y: spec_scaled(self.y as int, f) as u64,
        }
    }

    /// Scales both components by the zoom factor.
    pub fn zoomed(self, f: u64) -> (r: Size2)
        requires
            self.wf(),
            f <= MAX_ZOOM,
        ensures
            r == self.spec_zoomed(f as int),
    {
        Size2 { x: scale_dim(self.x, f), y: scale_dim(self.y, f) }
    }
}

/// Blank space around content, one dimension per side.
#[derive(Clone, Copy, PartialEq, Eq, Structural, Debug)]
pub struct Margin {
    pub left: u64,
    pub right: u64,
    pub top: u64,
    pub bottom: u64,
}

impl Margin {
    /// Every dimension within bounds.
    pub open spec fn wf(self) -> bool {
        dim_ok(self.left) && dim_ok(self.right) && dim_ok(self.top) && dim_ok(self.bottom)
    }

    /// Every side scaled.
    pub open spec fn spec_zoomed(self, f: int) -> Margin {
        Margin {
            left: spec_scaled(self.left as int, f) as u64,
            right: spec_scaled(self.right as int, f) as u64,
            top: spec_scaled(self.top as int, f) as u64,
            bottom: spec_scaled(self.bottom as int, f) as u64,
        }
    }

    /// Scales every side by the zoom factor.
    pub fn zoomed(self, f: u64) -> (r: Margin)
        requires
            self.wf(),
            f <= MAX_ZOOM,
        ensures
            r == self.spec_zoomed(f as int),
    {
        Margin {
            left: scale_dim(self.left, f),
            right: scale_dim(self.right, f),
            top: scale_dim(self.top, f),
            bottom: scale_dim(self.bottom, f),
        }
    }
}

/// A drop shadow: offset, blur, spread and color.
#[derive(Clone, Copy, PartialEq, Eq, Structural, Debug)]
pub struct Shadow {
    pub offset_x: u64,
    pub offset_y: u64,
    pub blur: u64,
    pub spread: u64,
    pub color: Color,
}

impl Shadow {
    /// Every dimension within bounds.
    pub open spec fn wf(self) -> bool {
        dim_ok(self.offset_x) && dim_ok(self.offset_y) && dim_ok(self.blur) && dim_ok(
            self.spread,
        )
    }

    /// The absent shadow.
    pub open spec fn spec_none() -> Shadow {
        Shadow {
            offset_x: 0,
            offset_y: 0,
            blur: 0,
            spread: 0,
            color: (Color { r: 0, g: 0, b: 0, a: 0 }),
        }
    }

    /// Returns the absent shadow.
    pub fn none() -> (r: Shadow)
        ensures
            r == Shadow::spec_none(),
    {
        Shadow {
            offset_x: 0,
            offset_y: 0,
            blur: 0,
            spread: 0,
            color: Color { r: 0, g: 0, b: 0, a: 0 },
        }
    }

    /// Every dimension scaled; the color keeps its value.
    pub open spec fn spec_zoomed(self, f: int) -> Shadow {
        Shadow {
            offset_x: spec_scaled(self.offset_x as int, f) as u64,
            offset_y: spec_scaled(self.offset_y as int, f) as u64,
            blur: spec_scaled(self.blur as int, f) as u64,
            spread: spec_scaled(self.spread as int, f) as u64,
            color: self.color,
        }
    }

    /// Scales every dimension by the zoom factor.
    pub fn zoomed(self, f: u64) -> (r: Shadow)
        requires
            self.wf(),
            f <= MAX_ZOOM,
        ensures
            r == self.spec_zoomed(f as int),
    {
        Shadow {
            offset_x: scale_dim(self.offset_x, f),
            offset_y: scale_dim(self.offset_y, f),
            blur: scale_dim(self.blur, f),
            spread: scale_dim(self.spread, f),
            color: self.color,
        }
    }
}

/// Chrome around a region: margins, corner rounding, shadow, fill and
/// border stroke.
#[derive(Clone, Copy, PartialEq, Eq, Structural, Debug)]
pub struct Frame {
    pub inner_margin: Margin,
    pub outer_margin: Margin,
    pub corner_radius: u64,
    pub shadow: Shadow,
    pub fill: Color,
    pub stroke: Stroke,
}

impl Frame {
    /// Every dimension within bounds.
    pub open spec fn wf(self) -> bool {
        self.inner_margin.wf() && self.outer_margin.wf() && dim_ok(self.corner_radius)
            && self.shadow.wf() && self.stroke.wf()
    }

    /// Every dimension scaled; the colors keep their values.
    pub open spec fn spec_zoomed(self, f: int) -> Frame {
        Frame {
            inner_margin: self.inner_margin.spec_zoomed(f),
            outer_margin: self.outer_margin.spec_zoomed(f),
            corner_radius: spec_scaled(self.corner_radius as int, f) as u64,
            shadow: self.shadow.spec_zoomed(f),
            fill: self.fill,
            stroke: self.stroke.spec_zoomed(f),
        }
    }

    /// Scales every dimension by the zoom factor.
    pub fn zoomed(self, f: u64) -> (r: Frame)
        requires
            self.wf(),
            f <= MAX_ZOOM,
        ensures
            r == self.spec_zoomed(f as int),
    {
        Frame {
            inner_margin: self.inner_margin.zoomed(f),
            outer_margin: self.outer_margin.zoomed(f),
            corner_radius: scale_dim(self.corner_radius, f),
            shadow: self.shadow.zoomed(f),
            fill: self.fill,
            stroke: self.stroke.zoomed(f),
        }
    }

    /// The same frame without a shadow.
    pub open spec fn spec_without_shadow(self) -> Frame {
        Frame { shadow: Shadow::spec_none(), ..self }
    }

    /// Removes the shadow.
    pub fn without_shadow(self) -> (r: Frame)
        ensures
            r == self.spec_without_shadow(),
    {
        Frame { shadow: Shadow::none(), ..self }
    }
}

/// How nodes are laid out.
#[derive(Clone, Copy, PartialEq, Eq, Structural, Debug)]
pub enum NodeLayout {
    Basic,
    Sandwich,
    FlippedSandwich,
}

/// Shape of pins.
#[derive(Clone, Copy, PartialEq, Eq, Structural, Debug)]
pub enum PinShape {
    Circle,
    Triangle,
    Square,
    Star,
}

/// Placement of pins relative to the node frame.
#[derive(Clone, Copy, PartialEq, Eq, Structural, Debug)]
pub enum PinPlacement {
    Inside,
    Edge,
    Outside { margin: u64 },
}

/// Visual variant of wires.
#[derive(Clone, Copy, PartialEq, Eq, Structural, Debug)]
pub enum WireStyle {
    Line,
    Bezier3,
    Bezier5,
    AxisAligned { corner_radius: u64 },
}

impl WireStyle {
    /// Every dimension within bounds.
    pub open spec fn wf(self) -> bool {
        match self {
            WireStyle::AxisAligned { corner_radius } => dim_ok(corner_radius),
            _ => true,
        }
    }

    /// The corner radius of an axis-aligned wire is a dimension and is
    /// scaled; the other variants carry no dimension.
    pub open spec fn spec_zoomed(self, f: int) -> WireStyle {
        match self {
            WireStyle::AxisAligned { corner_radius } => WireStyle::AxisAligned {
                corner_radius: spec_scaled(corner_radius as int, f) as u64,
            },
            _ => self,
        }
    }

    /// Scales the dimension the variant carries, if any.
    pub fn zoomed(self, f: u64) -> (r: WireStyle)
        requires
            self.wf(),
            f <= MAX_ZOOM,
        ensures
            r == self.spec_zoomed(f as int),
    {
        match self {
            WireStyle::AxisAligned { corner_radius } => WireStyle::AxisAligned {
                corner_radius: scale_dim(corner_radius, f),
            },
            _ => self,
        }
    }
}

/// Layer where wires are rendered.
#[derive(Clone, Copy, PartialEq, Eq, Structural, Debug)]
pub enum WireLayer {
    BehindNodes,
    AboveNodes,
}

/// Pattern drawn on the canvas background.
#[derive(Clone, Copy, PartialEq, Eq, Structural, Debug)]
pub enum BackgroundPattern {
    Grid { spacing: Size2, angle: u64 },
}

/// Highlight drawn around selected nodes: margin, corner rounding, fill
/// and stroke, assembled for the renderer to consume in one call.
#[derive(Clone, Copy, PartialEq, Eq, Structural, Debug)]
pub struct SelectionStyle {
    pub margin: Margin,
    pub corner_radius: u64,
    pub fill: Color,
    pub stroke: Stroke,
}

impl SelectionStyle {
    /// Every dimension within bounds.
    pub open spec fn wf(self) -> bool {
        self.margin.wf() && dim_ok(self.corner_radius) && self.stroke.wf()
    }

    /// Every dimension scaled; the fill keeps its value.
    pub open spec fn spec_zoomed(self, f: int) -> SelectionStyle {
        SelectionStyle {
            margin: self.margin.spec_zoomed(f),
            corner_radius: spec_scaled(self.corner_radius as int, f) as u64,
            fill: self.fill,
            stroke: self.stroke.spec_zoomed(f),
        }
    }

    /// Scales every dimension by the zoom factor.
    pub fn zoomed(self, f: u64) -> (r: SelectionStyle)
        requires
            self.wf(),
            f <= MAX_ZOOM,
        ensures
            r == self.spec_zoomed(f as int),
    {
        SelectionStyle {
            margin: self.margin.zoomed(f),
            corner_radius: scale_dim(self.corner_radius, f),
            fill: self.fill,
            stroke: self.stroke.zoomed(f),
        }
    }
}

/// Snapshot of the host toolkit's ambient visual theme for one frame:
/// everything the default resolution chain reads.
#[derive(Clone, Copy, PartialEq, Eq, Structural, Debug)]
pub struct AmbientStyle {
    /// Height of an interactive widget; pin size defaults to a fraction
    /// of it.
    pub interact_size_y: u64,
    /// Width of an icon; header drag space defaults to it in both axes.
    pub icon_width: u64,
    /// Margin of a window.
    pub window_margin: Margin,
    /// Corner rounding of a window.
    pub window_corner_radius: u64,
    /// Background fill of an active widget.
    pub active_bg_fill: Color,
    /// Background stroke of an active widget.
    pub active_bg_stroke: Stroke,
    /// Background stroke of a non-interactive widget.
    pub noninteractive_bg_stroke: Stroke,
    /// Stroke of the selection accent.
    pub selection_stroke: Stroke,
    /// Background fill of the selection accent.
    pub selection_bg_fill: Color,
    /// Chrome of a window, used whole as the node frame default.
    pub window_frame: Frame,
    /// Chrome of a canvas, used whole as the background frame default.
    pub canvas_frame: Frame,
}

impl AmbientStyle {
    /// Every dimension within bounds.
    pub open spec fn wf(self) -> bool {
        dim_ok(self.interact_size_y) && dim_ok(self.icon_width) && self.window_margin.wf()
            && dim_ok(self.window_corner_radius) && self.active_bg_stroke.wf()
            && self.noninteractive_bg_stroke.wf() && self.selection_stroke.wf()
            && self.window_frame.wf() && self.canvas_frame.wf()
    }
}

} // verus!
