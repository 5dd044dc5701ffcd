//! The bounding rectangle that each geometry's rendering occupies,
//! including style-dependent padding.
//!
//! Every composite bound is a fold of the union over the bounds of the
//! constituents, seeded with the empty rectangle.

use vstd::prelude::*;

use crate::geometry::{
    Coordinate, Geometry, GeometryCollection, Line, LineString, MultiLineString, MultiPoint,
    MultiPolygon, Point, Polygon, Rect, Triangle,
};
use crate::style::{spec_point_pad, spec_stroke_or_one, Style};
use crate::viewbox::ViewBox;

verus! {

/// The square of half-extent `pad` centred on a coordinate.
pub open spec fn vb_coord(c: Coordinate, pad: int) -> ViewBox {
    ViewBox::Rect {
        min_x: (c.x - pad) as i64,
        min_y: (c.y - pad) as i64,
        max_x: (c.x + pad) as i64,
        max_y: (c.y + pad) as i64,
    }
}

/// The bound of a point: a square centred on it with half-extent
/// radius plus stroke width, whatever the point mode.
pub open spec fn vb_point(p: Point, s: Style) -> ViewBox {
    vb_coord(p.0, spec_point_pad(s))
}

/// The bound of a line: the union of its endpoint squares with the radius
/// forced to zero, so that only stroke padding applies.
pub open spec fn vb_line(l: Line, s: Style) -> ViewBox {
    vb_coord(l.start, spec_stroke_or_one(s)).spec_add(vb_coord(l.end, spec_stroke_or_one(s)))
}

/// The fold of line bounds over the consecutive coordinate pairs of a
/// contour; empty below two coordinates.
pub open spec fn vb_segments(cs: Seq<Coordinate>, s: Style) -> ViewBox
    decreases cs.len(),
{
    if cs.len() < 2 {
        ViewBox::Empty
    } else {
        vb_segments(cs.drop_last(), s).spec_add(
            vb_line(Line { start: cs[cs.len() - 2], end: cs[cs.len() - 1] }, s),
        )
    }
}

/// The bound of a line string: the fold of its segment bounds.
pub open spec fn vb_linestring(ls: LineString, s: Style) -> ViewBox {
    vb_segments(ls.0@, s)
}

/// The fold of contour bounds over a sequence of rings.
pub open spec fn vb_rings(rings: Seq<LineString>, s: Style) -> ViewBox
    decreases rings.len(),
{
    if rings.len() == 0 {
        ViewBox::Empty
    } else {
        vb_rings(rings.drop_last(), s).spec_add(vb_segments(rings.last().0@, s))
    }
}

/// The bound of a polygon given as its exterior ring and interior rings:
/// every edge of every ring contributes.
pub open spec fn vb_poly_parts(ext: Seq<Coordinate>, ints: Seq<LineString>, s: Style) -> ViewBox {
    vb_segments(ext, s).spec_add(vb_rings(ints, s))
}

/// The bound of a polygon.
pub open spec fn vb_polygon(p: Polygon, s: Style) -> ViewBox {
    vb_poly_parts(p.exterior.0@, p.interiors@, s)
}

/// The bound of a rectangle: the bound of its four-corner polygon.
pub open spec fn vb_rect(r: Rect, s: Style) -> ViewBox {
    vb_poly_parts(r.spec_ring(), Seq::empty(), s)
}

/// The bound of a triangle: the bound of its three-corner polygon.
pub open spec fn vb_triangle(t: Triangle, s: Style) -> ViewBox {
    vb_poly_parts(t.spec_ring(), Seq::empty(), s)
}

/// The fold of point bounds over a sequence of points.
pub open spec fn vb_points(ps: Seq<Point>, s: Style) -> ViewBox
    decreases ps.len(),
{
    if ps.len() == 0 {
        ViewBox::Empty
    } else {
        vb_points(ps.drop_last(), s).spec_add(vb_point(ps.last(), s))
    }
}

/// The bound of a multi-point.
pub open spec fn vb_multipoint(mp: MultiPoint, s: Style) -> ViewBox {
    vb_points(mp.0@, s)
}

/// The bound of a multi-line-string: the fold of its members' contour
/// bounds.
pub open spec fn vb_multilinestring(mls: MultiLineString, s: Style) -> ViewBox {
    vb_rings(mls.0@, s)
}

/// The fold of polygon bounds over a sequence of polygons.
pub open spec fn vb_polygons(ps: Seq<Polygon>, s: Style) -> ViewBox
    decreases ps.len(),
{
    if ps.len() == 0 {
        ViewBox::Empty
    } else {
        vb_polygons(ps.drop_last(), s).spec_add(vb_polygon(ps.last(), s))
    }
}

/// The bound of a multi-polygon.
pub open spec fn vb_multipolygon(mp: MultiPolygon, s: Style) -> ViewBox {
    vb_polygons(mp.0@, s)
}

/// The bound of any geometry: one exhaustive dispatch over the variant
/// union; rectangles and triangles bound as their polygons.
pub open spec fn vb_geometry(g: Geometry, s: Style) -> ViewBox
    decreases g, 1int,
{
    match g {
        Geometry::Point(p) => vb_point(p, s),
        Geometry::Line(l) => vb_line(l, s),
        Geometry::LineString(ls) => vb_linestring(ls, s),
        Geometry::Polygon(p) => vb_polygon(p, s),
        Geometry::Rect(r) => vb_rect(r, s),
        Geometry::Triangle(t) => vb_triangle(t, s),
        Geometry::MultiPoint(mp) => vb_multipoint(mp, s),
        Geometry::MultiLineString(mls) => vb_multilinestring(mls, s),
        Geometry::MultiPolygon(mp) => vb_multipolygon(mp, s),
        Geometry::GeometryCollection(gc) => vb_geometries(gc.0@, s),
    }
}

/// The fold of geometry bounds over a sequence of geometries.
pub open spec fn vb_geometries(gs: Seq<Geometry>, s: Style) -> ViewBox
    decreases gs, 0int,
{
    if gs.len() == 0 {
        ViewBox::Empty
    } else {
        vb_geometries(gs.drop_last(), s).spec_add(vb_geometry(gs.last(), s))
    }
}

/// The stroke width that padding uses: the style's, or 1 when absent.
pub fn stroke_or_one(s: &Style) -> (r: i32)
    ensures
        r as int == spec_stroke_or_one(*s),
{
    match s.stroke_width {
        Option::Some(w) => w,
        Option::None => 1,
    }
}

/// The square of half-extent `pad` centred on a coordinate.
fn bound_coord(c: Coordinate, pad: i64) -> (r: ViewBox)
    requires
        -0x1_0000_0000 <= pad <= 0x1_0000_0000,
    ensures
        r == vb_coord(c, pad as int),
{
    ViewBox::new(c.x as i64 - pad, c.y as i64 - pad, c.x as i64 + pad, c.y as i64 + pad)
}

/// Bounds a point: a square centred on it, padded by radius plus stroke
/// width; the point mode plays no part.
pub fn bound_point(p: &Point, s: &Style) -> (r: ViewBox)
    ensures
        r == vb_point(*p, *s),
{
    let pad: i64 = s.radius as i64 + stroke_or_one(s) as i64;
    bound_coord(p.0, pad)
}

/// Bounds a line: the union of its endpoint squares with radius zeroed, so
/// that only stroke padding applies.
pub fn bound_line(l: &Line, s: &Style) -> (r: ViewBox)
    ensures
        r == vb_line(*l, *s),
{
    let pad: i64 = stroke_or_one(s) as i64;
    let a = bound_coord(l.start, pad);
    let b = bound_coord(l.end, pad);
    a.add(&b)
}

/// Bounds a line string: the fold of its segment bounds.
pub fn bound_linestring(ls: &LineString, s: &Style) -> (r: ViewBox)
    ensures
        r == vb_linestring(*ls, *s),
{
    let n = ls.0.len();
    let mut acc = ViewBox::Empty;
    if n >= 2 {
        proof {
            assert(acc == vb_segments(ls.0@.take(1int), *s));
        }
        let mut i: usize = 1;
        while i < n
            invariant
                1 <= i <= n,
                n == ls.0@.len(),
                acc == vb_segments(ls.0@.take(i as int), *s),
            decreases n - i,
        {
            let seg = Line { start: ls.0[i - 1], end: ls.0[i] };
            let piece = bound_line(&seg, s);
            acc = acc.add(&piece);
            proof {
                let cs = ls.0@;
                assert(cs.take(i as int + 1).drop_last() =~= cs.take(i as int));
                assert(cs.take(i as int + 1)[i - 1] == cs[i - 1]);
                assert(cs.take(i as int + 1)[i as int] == cs[i as int]);
            }
            i = i + 1;
        }
        proof {
            assert(ls.0@.take(n as int) =~= ls.0@);
        }
    }
    acc
}

/// Bounds a polygon: the union of the contour bounds of its exterior ring
/// and every interior ring.
pub fn bound_polygon(p: &Polygon, s: &Style) -> (r: ViewBox)
    ensures
        r == vb_polygon(*p, *s),
{
    let mut acc = bound_linestring(&p.exterior, s);
    let ghost ext_vb = acc;
    let m = p.interiors.len();
    let mut j: usize = 0;
    while j < m
        invariant
            0 <= j <= m,
            m == p.interiors@.len(),
            ext_vb == vb_segments(p.exterior.0@, *s),
            acc == ext_vb.spec_add(vb_rings(p.interiors@.take(j as int), *s)),
        decreases m - j,
    {
        let piece = bound_linestring(&p.interiors[j], s);
        acc = acc.add(&piece);
        proof {
            let rs = p.interiors@;
            assert(rs.take(j as int + 1).drop_last() =~= rs.take(j as int));
            assert(rs.take(j as int + 1).last() == rs[j as int]);
            crate::viewbox::lemma_add_assoc(
                ext_vb,
                vb_rings(rs.take(j as int), *s),
                vb_segments(rs[j as int].0@, *s),
            );
        }
        j = j + 1;
    }
    proof {
        assert(p.interiors@.take(m as int) =~= p.interiors@);
    }
    acc
}

/// Bounds a rectangle as its four-corner polygon.
pub fn bound_rect(r: &Rect, s: &Style) -> (res: ViewBox)
    ensures
        res == vb_rect(*r, *s),
{
    let poly = r.to_polygon();
    let res = bound_polygon(&poly, s);
    proof {
        assert(poly.interiors@ =~= Seq::<LineString>::empty());
    }
    res
}

/// Bounds a triangle as its three-corner polygon.
pub fn bound_triangle(t: &Triangle, s: &Style) -> (res: ViewBox)
    ensures
        res == vb_triangle(*t, *s),
{
    let poly = t.to_polygon();
    let res = bound_polygon(&poly, s);
    proof {
        assert(poly.interiors@ =~= Seq::<LineString>::empty());
    }
    res
}

/// Bounds a multi-point: the union of its points' bounds.
pub fn bound_multipoint(mp: &MultiPoint, s: &Style) -> (r: ViewBox)
    ensures
        r == vb_multipoint(*mp, *s),
{
    let mut acc = ViewBox::Empty;
    let n = mp.0.len();
    let mut i: usize = 0;
    while i < n
        invariant
            0 <= i <= n,
            n == mp.0@.len(),
            acc == vb_points(mp.0@.take(i as int), *s),
        decreases n - i,
    {
        let piece = bound_point(&mp.0[i], s);
        acc = acc.add(&piece);
        proof {
            let ps = mp.0@;
            assert(ps.take(i as int + 1).drop_last() =~= ps.take(i as int));
            assert(ps.take(i as int + 1).last() == ps[i as int]);
        }
        i = i + 1;
    }
    proof {
        assert(mp.0@.take(n as int) =~= mp.0@);
    }
    acc
}

/// Bounds a multi-line-string: the union of its members' bounds.
pub fn bound_multilinestring(mls: &MultiLineString, s: &Style) -> (r: ViewBox)
    ensures
        r == vb_multilinestring(*mls, *s),
{
    let mut acc = ViewBox::Empty;
    let n = mls.0.len();
    let mut i: usize = 0;
    while i < n
        invariant
            0 <= i <= n,
            n == mls.0@.len(),
            acc == vb_rings(mls.0@.take(i as int), *s),
        decreases n - i,
    {
        let piece = bound_linestring(&mls.0[i], s);
        acc = acc.add(&piece);
        proof {
            let ps = mls.0@;
            assert(ps.take(i as int + 1).drop_last() =~= ps.take(i as int));
            assert(ps.take(i as int + 1).last() == ps[i as int]);
        }
        i = i + 1;
    }
    proof {
        assert(mls.0@.take(n as int) =~= mls.0@);
    }
    acc
}

/// Bounds a multi-polygon: the union of its members' bounds.
pub fn bound_multipolygon(mp: &MultiPolygon, s: &Style) -> (r: ViewBox)
    ensures
        r == vb_multipolygon(*mp, *s),
{
    let mut acc = ViewBox::Empty;
    let n = mp.0.len();
    let mut i: usize = 0;
    while i < n
        invariant
            0 <= i <= n,
            n == mp.0@.len(),
            acc == vb_polygons(mp.0@.take(i as int), *s),
        decreases n - i,
    {
        let piece = bound_polygon(&mp.0[i], s);
        acc = acc.add(&piece);
        proof {
            let ps = mp.0@;
            assert(ps.take(i as int + 1).drop_last() =~= ps.take(i as int));
            assert(ps.take(i as int + 1).last() == ps[i as int]);
        }
        i = i + 1;
    }
    proof {
        assert(mp.0@.take(n as int) =~= mp.0@);
    }
    acc
}

/// Bounds any geometry by dispatching on its variant; rectangles and
/// triangles are normalized to polygons first.
pub fn bound_geometry(g: &Geometry, s: &Style) -> (r: ViewBox)
    ensures
        r == vb_geometry(*g, *s),
    decreases *g, 1int,
{
    match g {
        Geometry::Point(p) => bound_point(p, s),
        Geometry::Line(l) => bound_line(l, s),
        Geometry::LineString(ls) => bound_linestring(ls, s),
        Geometry::Polygon(p) => bound_polygon(p, s),
        Geometry::Rect(r) => bound_rect(r, s),
        Geometry::Triangle(t) => bound_triangle(t, s),
        Geometry::MultiPoint(mp) => bound_multipoint(mp, s),
        Geometry::MultiLineString(mls) => bound_multilinestring(mls, s),
        Geometry::MultiPolygon(mp) => bound_multipolygon(mp, s),
        Geometry::GeometryCollection(gc) => bound_geometries(&gc.0, s),
    }
}

/// Bounds a sequence of geometries: the union of the members' bounds,
/// seeded with the empty rectangle.
pub fn bound_geometries(gs: &Vec<Geometry>, s: &Style) -> (r: ViewBox)
    ensures
        r == vb_geometries(gs@, *s),
    decreases gs@, 0int,
{
    let mut acc = ViewBox::Empty;
    let n = gs.len();
    let mut i: usize = 0;
    while i < n
        invariant
            0 <= i <= n,
            n == gs@.len(),
            acc == vb_geometries(gs@.take(i as int), *s),
        decreases n - i,
    {
        let piece = bound_geometry(&gs[i], s);
        acc = acc.add(&piece);
        proof {
            assert(gs@.take(i as int + 1).drop_last() =~= gs@.take(i as int));
            assert(gs@.take(i as int + 1).last() == gs@[i as int]);
        }
        i = i + 1;
    }
    proof {
        assert(gs@.take(n as int) =~= gs@);
    }
    acc
}

} // verus!
