//! Rendering of geometric primitives (points, lines, polygons, and their
//! collections) into SVG markup fragments, together with the axis-aligned
//! bounding rectangle ("viewbox") that the rendered output occupies,
//! including style-dependent padding.
//!
//! Coordinates are plain integers; every rendered fragment is specified
//! exactly, character for character, by spec functions over `Seq<char>`.

pub mod bound;
pub mod geometry;
pub mod laws;
pub mod num;
pub mod render;
pub mod style;
pub mod to_svg;
pub mod viewbox;

use vstd::prelude::*;

use crate::bound::{bound_geometry, vb_geometry};
use crate::geometry::Geometry;
use crate::render::{render_geometry, svg_of_geometry};
use crate::style::Style;
use crate::viewbox::ViewBox;

verus! {

/// Renders a geometry under a style into an SVG markup fragment (no
/// document root; the caller embeds it).
pub fn render(geometry: &Geometry, style: &Style) -> (r: String)
    ensures
        r@ == svg_of_geometry(*geometry, *style),
{
    render_geometry(geometry, style)
}

/// The minimal rectangle containing the rendering of the geometry under the
/// style's padding rules.
pub fn bound(geometry: &Geometry, style: &Style) -> (r: ViewBox)
    ensures
        r == vb_geometry(*geometry, *style),
{
    bound_geometry(geometry, style)
}

} // verus!
