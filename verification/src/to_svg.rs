//! The rendering interface: every geometry variant, and any ordered
//! sequence of renderable items, renders to an SVG fragment and bounds to a
//! viewbox.

use vstd::prelude::*;
use vstd::string::StringExecFns;

use crate::bound::{
    bound_geometries, bound_geometry, bound_line, bound_linestring, bound_multilinestring,
    bound_multipoint, bound_multipolygon, bound_point, bound_polygon, bound_rect, bound_triangle,
    vb_geometries, vb_geometry, vb_line, vb_linestring, vb_multilinestring, vb_multipoint,
    vb_multipolygon, vb_point, vb_polygon, vb_rect, vb_triangle,
};
use crate::geometry::{
    Coordinate, Geometry, GeometryCollection, Line, LineString, MultiLineString, MultiPoint,
    MultiPolygon, Point, Polygon, Rect, Triangle,
};
use crate::render::{
    render_geometries, render_geometry, render_line, render_linestring, render_multilinestring,
    render_multipoint, render_multipolygon, render_point, render_polygon, render_rect,
    render_triangle, svg_of_geometries, svg_of_geometry, svg_of_line, svg_of_linestring,
    svg_of_multilinestring, svg_of_multipoint, svg_of_multipolygon, svg_of_point, svg_of_polygon,
    svg_of_rect, svg_of_triangle,
};
use crate::style::Style;
use crate::viewbox::ViewBox;

verus! {

/// Anything that renders to an SVG fragment and bounds to a viewbox under a
/// style. Both operations are total and read the style passively.
pub trait ToSvgStr {
    /// The exact fragment that `to_svg_str` returns.
    spec fn spec_svg(&self, style: Style) -> Seq<char>;

    /// The exact bound that `viewbox` returns.
    spec fn spec_viewbox(&self, style: Style) -> ViewBox;

    /// The SVG markup fragment for this value under the style.
    fn to_svg_str(&self, style: &Style) -> (r: String)
        ensures
            r@ == self.spec_svg(*style),
    ;

    /// The bounding rectangle that the same rendering occupies.
    fn viewbox(&self, style: &Style) -> (r: ViewBox)
        ensures
            r == self.spec_viewbox(*style),
    ;
}

impl ToSvgStr for Coordinate {
    /// A bare coordinate renders as the point at that coordinate.
    open spec fn spec_svg(&self, style: Style) -> Seq<char> {
        svg_of_point(Point(*self), style)
    }

    open spec fn spec_viewbox(&self, style: Style) -> ViewBox {
        vb_point(Point(*self), style)
    }

    fn to_svg_str(&self, style: &Style) -> (r: String) {
        let p = Point(*self);
        render_point(&p, style)
    }

    fn viewbox(&self, style: &Style) -> (r: ViewBox) {
        let p = Point(*self);
        bound_point(&p, style)
    }
}

impl ToSvgStr for Point {
    open spec fn spec_svg(&self, style: Style) -> Seq<char> {
        svg_of_point(*self, style)
    }

    open spec fn spec_viewbox(&self, style: Style) -> ViewBox {
        vb_point(*self, style)
    }

    fn to_svg_str(&self, style: &Style) -> (r: String) {
        render_point(self, style)
    }

    fn viewbox(&self, style: &Style) -> (r: ViewBox) {
        bound_point(self, style)
    }
}

impl ToSvgStr for Line {
    open spec fn spec_svg(&self, style: Style) -> Seq<char> {
        svg_of_line(*self, style)
    }

    open spec fn spec_viewbox(&self, style: Style) -> ViewBox {
        vb_line(*self, style)
    }

    fn to_svg_str(&self, style: &Style) -> (r: String) {
        render_line(self, style)
    }

    fn viewbox(&self, style: &Style) -> (r: ViewBox) {
        bound_line(self, style)
    }
}

impl ToSvgStr for LineString {
    open spec fn spec_svg(&self, style: Style) -> Seq<char> {
        svg_of_linestring(*self, style)
    }

    open spec fn spec_viewbox(&self, style: Style) -> ViewBox {
        vb_linestring(*self, style)
    }

    fn to_svg_str(&self, style: &Style) -> (r: String) {
        render_linestring(self, style)
    }

    fn viewbox(&self, style: &Style) -> (r: ViewBox) {
        bound_linestring(self, style)
    }
}

impl ToSvgStr for Polygon {
    open spec fn spec_svg(&self, style: Style) -> Seq<char> {
        svg_of_polygon(*self, style)
    }

    open spec fn spec_viewbox(&self, style: Style) -> ViewBox {
        vb_polygon(*self, style)
    }

    fn to_svg_str(&self, style: &Style) -> (r: String) {
        render_polygon(self, style)
    }

    fn viewbox(&self, style: &Style) -> (r: ViewBox) {
        bound_polygon(self, style)
    }
}

impl ToSvgStr for Rect {
    open spec fn spec_svg(&self, style: Style) -> Seq<char> {
        svg_of_rect(*self, style)
    }

    open spec fn spec_viewbox(&self, style: Style) -> ViewBox {
        vb_rect(*self, style)
    }

    fn to_svg_str(&self, style: &Style) -> (r: String) {
        render_rect(self, style)
    }

    fn viewbox(&self, style: &Style) -> (r: ViewBox) {
        bound_rect(self, style)
    }
}

impl ToSvgStr for Triangle {
    open spec fn spec_svg(&self, style: Style) -> Seq<char> {
        svg_of_triangle(*self, style)
    }

    open spec fn spec_viewbox(&self, style: Style) -> ViewBox {
        vb_triangle(*self, style)
    }

    fn to_svg_str(&self, style: &Style) -> (r: String) {
        render_triangle(self, style)
    }

    fn viewbox(&self, style: &Style) -> (r: ViewBox) {
        bound_triangle(self, style)
    }
}

impl ToSvgStr for MultiPoint {
    open spec fn spec_svg(&self, style: Style) -> Seq<char> {
        svg_of_multipoint(*self, style)
    }

    open spec fn spec_viewbox(&self, style: Style) -> ViewBox {
        vb_multipoint(*self, style)
    }

    fn to_svg_str(&self, style: &Style) -> (r: String) {
        render_multipoint(self, style)
    }

    fn viewbox(&self, style: &Style) -> (r: ViewBox) {
        bound_multipoint(self, style)
    }
}

impl ToSvgStr for MultiLineString {
    open spec fn spec_svg(&self, style: Style) -> Seq<char> {
        svg_of_multilinestring(*self, style)
    }

    open spec fn spec_viewbox(&self, style: Style) -> ViewBox {
        vb_multilinestring(*self, style)
    }

    fn to_svg_str(&self, style: &Style) -> (r: String) {
        render_multilinestring(self, style)
    }

    fn viewbox(&self, style: &Style) -> (r: ViewBox) {
        bound_multilinestring(self, style)
    }
}

impl ToSvgStr for MultiPolygon {
    open spec fn spec_svg(&self, style: Style) -> Seq<char> {
        svg_of_multipolygon(*self, style)
    }

    open spec fn spec_viewbox(&self, style: Style) -> ViewBox {
        vb_multipolygon(*self, style)
    }

    fn to_svg_str(&self, style: &Style) -> (r: String) {
        render_multipolygon(self, style)
    }

    fn viewbox(&self, style: &Style) -> (r: ViewBox) {
        bound_multipolygon(self, style)
    }
}

impl ToSvgStr for Geometry {
    open spec fn spec_svg(&self, style: Style) -> Seq<char> {
        svg_of_geometry(*self, style)
    }

    open spec fn spec_viewbox(&self, style: Style) -> ViewBox {
        vb_geometry(*self, style)
    }

    fn to_svg_str(&self, style: &Style) -> (r: String) {
        render_geometry(self, style)
    }

    fn viewbox(&self, style: &Style) -> (r: ViewBox) {
        bound_geometry(self, style)
    }
}

impl ToSvgStr for GeometryCollection {
    /// A collection renders each member through the full variant dispatch.
    open spec fn spec_svg(&self, style: Style) -> Seq<char> {
        svg_of_geometries(self.0@, style)
    }

    open spec fn spec_viewbox(&self, style: Style) -> ViewBox {
        vb_geometries(self.0@, style)
    }

    fn to_svg_str(&self, style: &Style) -> (r: String) {
        render_geometries(&self.0, style)
    }

    fn viewbox(&self, style: &Style) -> (r: ViewBox) {
        bound_geometries(&self.0, style)
    }
}

/// The concatenation of the renderings of a sequence of renderable items.
pub open spec fn items_svg<T: ToSvgStr>(items: Seq<T>, style: Style) -> Seq<char>
    decreases items.len(),
{
    if items.len() == 0 {
        Seq::empty()
    } else {
        items_svg(items.drop_last(), style) + items.last().spec_svg(style)
    }
}

/// The union of the bounds of a sequence of renderable items.
pub open spec fn items_viewbox<T: ToSvgStr>(items: Seq<T>, style: Style) -> ViewBox
    decreases items.len(),
{
    if items.len() == 0 {
        ViewBox::Empty
    } else {
        items_viewbox(items.drop_last(), style).spec_add(items.last().spec_viewbox(style))
    }
}

impl<T: ToSvgStr> ToSvgStr for [T] {
    /// An ordered sequence renders as the concatenation of its members'
    /// renderings, in order, with no separators.
    open spec fn spec_svg(&self, style: Style) -> Seq<char> {
        items_svg(self@, style)
    }

    open spec fn spec_viewbox(&self, style: Style) -> ViewBox {
        items_viewbox(self@, style)
    }

    fn to_svg_str(&self, style: &Style) -> (r: String) {
        let mut out = String::new();
        let n = self.len();
        proof {
            assert(out@ =~= items_svg(self@.take(0int), *style));
        }
        let mut i: usize = 0;
        while i < n
            invariant
                0 <= i <= n,
                n == self@.len(),
                out@ == items_svg(self@.take(i as int), *style),
            decreases n - i,
        {
            let piece = self[i].to_svg_str(style);
            out.append(piece.as_str());
            proof {
                assert(self@.take(i as int + 1).drop_last() =~= self@.take(i as int));
                assert(self@.take(i as int + 1).last() == self@[i as int]);
            }
            i = i + 1;
        }
        proof {
            assert(self@.take(n as int) =~= self@);
        }
        out
    }

    fn viewbox(&self, style: &Style) -> (r: ViewBox) {
        let mut acc = ViewBox::Empty;
        let n = self.len();
        let mut i: usize = 0;
        while i < n
            invariant
                0 <= i <= n,
                n == self@.len(),
                acc == items_viewbox(self@.take(i as int), *style),
            decreases n - i,
        {
            let piece = self[i].viewbox(style);
            acc = acc.add(&piece);
            proof {
                assert(self@.take(i as int + 1).drop_last() =~= self@.take(i as int));
                assert(self@.take(i as int + 1).last() == self@[i as int]);
            }
            i = i + 1;
        }
        proof {
            assert(self@.take(n as int) =~= self@);
        }
        acc
    }
}

impl<T: ToSvgStr> ToSvgStr for Vec<T> {
    /// A vector renders and bounds as the slice of its items.
    open spec fn spec_svg(&self, style: Style) -> Seq<char> {
        items_svg(self@, style)
    }

    open spec fn spec_viewbox(&self, style: Style) -> ViewBox {
        items_viewbox(self@, style)
    }

    fn to_svg_str(&self, style: &Style) -> (r: String) {
        self.as_slice().to_svg_str(style)
    }

    fn viewbox(&self, style: &Style) -> (r: ViewBox) {
        self.as_slice().viewbox(style)
    }
}

} // verus!
