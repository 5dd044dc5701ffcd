//! The style configuration that rendering and bounding read.
//!
//! The style is a passive, read-only value. The generic visual attributes
//! (fill, stroke, opacity, ...) reach this crate already rendered, as one
//! opaque attribute string (`attrs`) that is interpolated verbatim into
//! each emitted element; this crate never parses it.

use vstd::prelude::*;

verus! {

/// How a single point is displayed.
#[derive(Clone, Copy, PartialEq, Eq, Structural, Debug)]
pub enum PointType {
    Circle,
    Symbol,
    Text,
    Poi,
}

/// Style fields that the renderers and the bound computation read.
///
/// Absent optional numeric fields fall back to documented defaults:
/// stroke width 1, icon size 60 by 60, icon view box `0 0 100 100`.
#[derive(Clone, Debug)]
pub struct Style {
    /// The point display mode; when absent, a circle tagged as a fallback.
    pub point_type: Option<PointType>,
    /// Optional label text.
    pub text: Option<String>,
    /// Optional class attribute for emitted text elements.
    pub text_classes: Option<String>,
    /// Optional start offset for text placed on a path.
    pub text_start_offset: Option<i64>,
    /// Optional stable identifier, cross-referenced by text-on-path.
    pub id: Option<String>,
    /// Radius of a rendered point.
    pub radius: i32,
    /// Optional stroke width; 1 when absent.
    pub stroke_width: Option<i32>,
    /// Inner view box of the point-of-interest icon: min-x, min-y, width, height.
    pub icon_svg_viewbox: Option<(i64, i64, i64, i64)>,
    /// Display width and height of the point-of-interest icon.
    pub icon_svg_width_height: Option<(u32, u32)>,
    /// Body markup of the point-of-interest icon.
    pub icon_svg_path: Option<String>,
    /// The generic visual attributes, pre-rendered; interpolated verbatim.
    pub attrs: String,
}

/// The characters of an optional text field; empty when absent.
pub open spec fn opt_str(o: Option<String>) -> Seq<char> {
    match o {
        Option::Some(s) => s@,
        Option::None => Seq::empty(),
    }
}

/// The stroke width that padding uses: the style's, or 1 when absent.
pub open spec fn spec_stroke_or_one(s: Style) -> int {
    match s.stroke_width {
        Option::Some(w) => w as int,
        Option::None => 1,
    }
}

/// Padding around a rendered point: radius plus stroke width.
pub open spec fn spec_point_pad(s: Style) -> int {
    s.radius + spec_stroke_or_one(s)
}

impl Default for Style {
    /// An empty style: no mode, no text, radius 0, no stroke width, no icon
    /// fields, empty attribute string.
    fn default() -> (r: Style)
        ensures
            r.point_type is None,
            r.text is None,
            r.text_classes is None,
            r.text_start_offset is None,
            r.id is None,
            r.radius == 0,
            r.stroke_width is None,
            r.icon_svg_viewbox is None,
            r.icon_svg_width_height is None,
            r.icon_svg_path is None,
            r.attrs@ == Seq::<char>::empty(),
    {
        Style {
            point_type: None,
            text: None,
            text_classes: None,
            text_start_offset: None,
            id: None,
            radius: 0,
            stroke_width: None,
            icon_svg_viewbox: None,
            icon_svg_width_height: None,
            icon_svg_path: None,
            attrs: String::new(),
        }
    }
}

} // verus!
