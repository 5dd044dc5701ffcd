//! The laws that the renderer and the bound computation obey, stated and
//! proved over the same spec functions that the executable functions'
//! contracts use.

use vstd::prelude::*;
use vstd::seq_lib::group_to_multiset_ensures;

use crate::bound::{
    vb_coord, vb_geometries, vb_geometry, vb_line, vb_multipolygon, vb_point,
    vb_points, vb_polygon, vb_polygons, vb_rings, vb_segments,
};
use crate::geometry::{
    Coordinate, Geometry, Line, LineString, MultiPoint, MultiPolygon, Point, Polygon,
};
use crate::render::{svg_of_multipoint, svg_of_point, svg_of_points};
use crate::style::{spec_point_pad, spec_stroke_or_one, Style};
use crate::viewbox::{lemma_add_assoc, lemma_add_comm, lemma_add_contains, lemma_add_identity, ViewBox};

verus! {

/// Whether the rectangle contains a coordinate.
pub open spec fn vb_contains_coord(v: ViewBox, c: Coordinate) -> bool {
    v.spec_contains(c.x as int, c.y as int)
}

// ---------------------------------------------------------------------------
// Rendering a multi-point is the concatenation of its points' renderings.
// ---------------------------------------------------------------------------

/// A single point renders under a multi-point exactly as it renders alone.
pub proof fn lemma_points_render_single(p: Point, s: Style)
    ensures
        svg_of_points(seq![p], s) == svg_of_point(p, s),
{
    assert(seq![p].drop_last() =~= Seq::<Point>::empty());
    assert(seq![p].last() == p);
    assert(svg_of_points(seq![p], s) == svg_of_points(Seq::<Point>::empty(), s) + svg_of_point(
        p,
        s,
    ));
    assert(Seq::empty() + svg_of_point(p, s) =~= svg_of_point(p, s));
}

/// The rendering of points concatenates over concatenation of the inputs,
/// keeping input order.
pub proof fn lemma_points_render_concat(ps: Seq<Point>, qs: Seq<Point>, s: Style)
    ensures
        svg_of_points(ps + qs, s) == svg_of_points(ps, s) + svg_of_points(qs, s),
    decreases qs.len(),
{
    if qs.len() == 0 {
        assert(ps + qs =~= ps);
        assert(svg_of_points(ps, s) + svg_of_points(qs, s) =~= svg_of_points(ps, s));
    } else {
        assert((ps + qs).drop_last() =~= ps + qs.drop_last());
        assert((ps + qs).last() == qs.last());
        lemma_points_render_concat(ps, qs.drop_last(), s);
        assert(svg_of_points(ps, s) + svg_of_points(qs.drop_last(), s) + svg_of_point(
            qs.last(),
            s,
        ) =~= svg_of_points(ps, s) + (svg_of_points(qs.drop_last(), s) + svg_of_point(
            qs.last(),
            s,
        )));
    }
}

/// Law: a multi-point made of two runs of points renders as the rendering of
/// the first run followed by the rendering of the second, so the rendering of
/// a multi-point of N points is the concatenation of the N individual point
/// renderings in input order.
pub proof fn lemma_multipoint_render_is_concat(
    a: MultiPoint,
    b: MultiPoint,
    c: MultiPoint,
    s: Style,
)
    requires
        c.0@ == a.0@ + b.0@,
    ensures
        svg_of_multipoint(c, s) == svg_of_multipoint(a, s) + svg_of_multipoint(b, s),
{
    lemma_points_render_concat(a.0@, b.0@, s);
}

// ---------------------------------------------------------------------------
// The bound of a multi-polygon is the union of the per-polygon bounds and
// does not depend on the order of the polygons.
// ---------------------------------------------------------------------------

/// The bound of two runs of polygons is the union of the runs' bounds.
pub proof fn lemma_polygons_bound_union(ps: Seq<Polygon>, qs: Seq<Polygon>, s: Style)
    ensures
        vb_polygons(ps + qs, s) == vb_polygons(ps, s).spec_add(vb_polygons(qs, s)),
    decreases qs.len(),
{
    if qs.len() == 0 {
        assert(ps + qs =~= ps);
        lemma_add_identity(vb_polygons(ps, s));
    } else {
        assert((ps + qs).drop_last() =~= ps + qs.drop_last());
        assert((ps + qs).last() == qs.last());
        lemma_polygons_bound_union(ps, qs.drop_last(), s);
        lemma_add_assoc(
            vb_polygons(ps, s),
            vb_polygons(qs.drop_last(), s),
            vb_polygon(qs.last(), s),
        );
    }
}

/// Removing one polygon and unioning its bound back in yields the whole
/// bound, wherever in the sequence the polygon stands.
pub proof fn lemma_polygons_bound_remove(ps: Seq<Polygon>, s: Style, j: int)
    requires
        0 <= j < ps.len(),
    ensures
        vb_polygons(ps, s) == vb_polygons(ps.remove(j), s).spec_add(vb_polygon(ps[j], s)),
    decreases ps.len(),
{
    if j == ps.len() - 1 {
        assert(ps.remove(j) =~= ps.drop_last());
    } else {
        lemma_polygons_bound_remove(ps.drop_last(), s, j);
        assert(ps.remove(j).drop_last() =~= ps.drop_last().remove(j));
        assert(ps.remove(j).last() == ps.last());
        lemma_add_assoc(
            vb_polygons(ps.drop_last().remove(j), s),
            vb_polygon(ps[j], s),
            vb_polygon(ps.last(), s),
        );
        lemma_add_comm(vb_polygon(ps[j], s), vb_polygon(ps.last(), s));
        lemma_add_assoc(
            vb_polygons(ps.drop_last().remove(j), s),
            vb_polygon(ps.last(), s),
            vb_polygon(ps[j], s),
        );
    }
}

/// Law: two multi-polygons holding the same polygons, in any order, have the
/// same bound: the union fold is insensitive to nesting order.
pub proof fn lemma_multipolygon_bound_permutation(a: MultiPolygon, b: MultiPolygon, s: Style)
    requires
        a.0@.to_multiset() == b.0@.to_multiset(),
    ensures
        vb_multipolygon(a, s) == vb_multipolygon(b, s),
{
    lemma_polygons_bound_permutation(a.0@, b.0@, s);
}

/// The union fold over any two sequences with the same multiset of polygons
/// is the same.
pub proof fn lemma_polygons_bound_permutation(s1: Seq<Polygon>, s2: Seq<Polygon>, s: Style)
    requires
        s1.to_multiset() == s2.to_multiset(),
    ensures
        vb_polygons(s1, s) == vb_polygons(s2, s),
    decreases s1.len(),
{
    broadcast use group_to_multiset_ensures;

    assert(s1.to_multiset().len() == s1.len());
    assert(s2.to_multiset().len() == s2.len());
    if s1.len() == 0 {
        assert(s2.len() == 0);
    } else {
        let x = s1.last();
        assert(s1.contains(x)) by {
            assert(s1[s1.len() - 1] == x);
        }
        assert(s2.to_multiset().count(x) > 0);
        assert(s2.contains(x));
        let j = choose|j: int| 0 <= j < s2.len() && s2[j] == x;
        lemma_polygons_bound_remove(s2, s, j);
        assert(s1.drop_last() =~= s1.remove(s1.len() - 1));
        assert(s1.remove(s1.len() - 1).to_multiset() == s1.to_multiset().remove(x));
        assert(s2.remove(j).to_multiset() == s2.to_multiset().remove(x));
        lemma_polygons_bound_permutation(s1.drop_last(), s2.remove(j), s);
    }
}

// ---------------------------------------------------------------------------
// The bound of a geometry contains every coordinate of the geometry.
// ---------------------------------------------------------------------------

/// The coordinates of a sequence of points.
pub open spec fn coords_of_points(ps: Seq<Point>) -> Seq<Coordinate>
    decreases ps.len(),
{
    if ps.len() == 0 {
        Seq::empty()
    } else {
        coords_of_points(ps.drop_last()) + seq![ps.last().0]
    }
}

/// The coordinates of a sequence of contours, in order.
pub open spec fn coords_of_rings(rings: Seq<LineString>) -> Seq<Coordinate>
    decreases rings.len(),
{
    if rings.len() == 0 {
        Seq::empty()
    } else {
        coords_of_rings(rings.drop_last()) + rings.last().0@
    }
}

/// The coordinates of a polygon: its exterior ring's, then its interior
/// rings'.
pub open spec fn coords_of_polygon(p: Polygon) -> Seq<Coordinate> {
    p.exterior.0@ + coords_of_rings(p.interiors@)
}

/// The coordinates of a sequence of polygons.
pub open spec fn coords_of_polygons(ps: Seq<Polygon>) -> Seq<Coordinate>
    decreases ps.len(),
{
    if ps.len() == 0 {
        Seq::empty()
    } else {
        coords_of_polygons(ps.drop_last()) + coords_of_polygon(ps.last())
    }
}

/// Every coordinate that a geometry carries, in traversal order.
pub open spec fn coords_of_geometry(g: Geometry) -> Seq<Coordinate>
    decreases g, 1int,
{
    match g {
        Geometry::Point(p) => seq![p.0],
        Geometry::Line(l) => seq![l.start, l.end],
        Geometry::LineString(ls) => ls.0@,
        Geometry::Polygon(p) => coords_of_polygon(p),
        Geometry::Rect(r) => r.spec_ring(),
        Geometry::Triangle(t) => t.spec_ring(),
        Geometry::MultiPoint(mp) => coords_of_points(mp.0@),
        Geometry::MultiLineString(mls) => coords_of_rings(mls.0@),
        Geometry::MultiPolygon(mp) => coords_of_polygons(mp.0@),
        Geometry::GeometryCollection(gc) => coords_of_geometries(gc.0@),
    }
}

/// The coordinates of a sequence of geometries.
pub open spec fn coords_of_geometries(gs: Seq<Geometry>) -> Seq<Coordinate>
    decreases gs, 0int,
{
    if gs.len() == 0 {
        Seq::empty()
    } else {
        coords_of_geometries(gs.drop_last()) + coords_of_geometry(gs.last())
    }
}

/// A contour whose bound covers its coordinates: any number of coordinates
/// but one. A single coordinate forms no segment, so its contour has an
/// empty bound that contains nothing.
pub open spec fn ring_covered(ls: LineString) -> bool {
    ls.0@.len() != 1
}

/// Every contour of the sequence is covered.
pub open spec fn rings_covered(rings: Seq<LineString>) -> bool {
    forall|i: int| 0 <= i < rings.len() ==> #[trigger] ring_covered(rings[i])
}

/// Every contour of the polygon is covered.
pub open spec fn polygon_covered(p: Polygon) -> bool {
    ring_covered(p.exterior) && rings_covered(p.interiors@)
}

/// Whether every contour anywhere in the geometry is covered: the one shape
/// of input on which the containment law cannot hold, a contour of exactly
/// one coordinate, appears nowhere.
pub open spec fn geometry_covered(g: Geometry) -> bool
    decreases g, 1int,
{
    match g {
        Geometry::Point(p) => true,
        Geometry::Line(l) => true,
        Geometry::LineString(ls) => ring_covered(ls),
        Geometry::Polygon(p) => polygon_covered(p),
        Geometry::Rect(r) => true,
        Geometry::Triangle(t) => true,
        Geometry::MultiPoint(mp) => true,
        Geometry::MultiLineString(mls) => rings_covered(mls.0@),
        Geometry::MultiPolygon(mp) => forall|i: int|
            0 <= i < mp.0@.len() ==> #[trigger] polygon_covered(mp.0@[i]),
        Geometry::GeometryCollection(gc) => geometries_covered(gc.0@),
    }
}

/// Whether every contour in every member geometry is covered.
pub open spec fn geometries_covered(gs: Seq<Geometry>) -> bool
    decreases gs, 0int,
{
    if gs.len() == 0 {
        true
    } else {
        geometries_covered(gs.drop_last()) && geometry_covered(gs.last())
    }
}

/// A nonnegative-padding square centred on a coordinate contains it.
proof fn lemma_vb_coord_contains(c: Coordinate, pad: int)
    requires
        0 <= pad <= 0x1_0000_0000,
    ensures
        vb_contains_coord(vb_coord(c, pad), c),
{
}

/// A line's bound contains both endpoints.
proof fn lemma_vb_line_contains(l: Line, s: Style)
    requires
        spec_stroke_or_one(s) >= 0,
    ensures
        vb_contains_coord(vb_line(l, s), l.start),
        vb_contains_coord(vb_line(l, s), l.end),
{
    lemma_vb_coord_contains(l.start, spec_stroke_or_one(s));
    lemma_vb_coord_contains(l.end, spec_stroke_or_one(s));
    lemma_add_contains(
        vb_coord(l.start, spec_stroke_or_one(s)),
        vb_coord(l.end, spec_stroke_or_one(s)),
        l.start.x as int,
        l.start.y as int,
    );
    lemma_add_contains(
        vb_coord(l.start, spec_stroke_or_one(s)),
        vb_coord(l.end, spec_stroke_or_one(s)),
        l.end.x as int,
        l.end.y as int,
    );
}

/// The fold of segment bounds over a contour of at least two coordinates
/// contains every coordinate of the contour.
proof fn lemma_vb_segments_contains(cs: Seq<Coordinate>, s: Style, i: int)
    requires
        spec_stroke_or_one(s) >= 0,
        cs.len() >= 2,
        0 <= i < cs.len(),
    ensures
        vb_contains_coord(vb_segments(cs, s), cs[i]),
    decreases cs.len(),
{
    let lastseg = Line { start: cs[cs.len() - 2], end: cs[cs.len() - 1] };
    if i >= cs.len() - 2 {
        lemma_vb_line_contains(lastseg, s);
        lemma_add_contains(
            vb_segments(cs.drop_last(), s),
            vb_line(lastseg, s),
            cs[i].x as int,
            cs[i].y as int,
        );
    } else {
        lemma_vb_segments_contains(cs.drop_last(), s, i);
        assert(cs.drop_last()[i] == cs[i]);
        lemma_add_contains(
            vb_segments(cs.drop_last(), s),
            vb_line(lastseg, s),
            cs[i].x as int,
            cs[i].y as int,
        );
    }
}

/// The fold of contour bounds contains every coordinate of every covered
/// contour.
proof fn lemma_vb_rings_contains(rings: Seq<LineString>, s: Style, k: int)
    requires
        spec_stroke_or_one(s) >= 0,
        rings_covered(rings),
        0 <= k < coords_of_rings(rings).len(),
    ensures
        vb_contains_coord(vb_rings(rings, s), coords_of_rings(rings)[k]),
    decreases rings.len(),
{
    let pre = coords_of_rings(rings.drop_last());
    let c = coords_of_rings(rings)[k];
    if k < pre.len() {
        assert(rings_covered(rings.drop_last())) by {
            assert(forall|i: int|
                0 <= i < rings.len() - 1 ==> rings.drop_last()[i] == rings[i]);
        }
        lemma_vb_rings_contains(rings.drop_last(), s, k);
        lemma_add_contains(
            vb_rings(rings.drop_last(), s),
            vb_segments(rings.last().0@, s),
            c.x as int,
            c.y as int,
        );
    } else {
        let ring = rings.last();
        assert(ring_covered(rings[rings.len() - 1]));
        assert(ring.0@.len() >= 2);
        lemma_vb_segments_contains(ring.0@, s, k - pre.len());
        lemma_add_contains(
            vb_rings(rings.drop_last(), s),
            vb_segments(ring.0@, s),
            c.x as int,
            c.y as int,
        );
    }
}

/// A covered polygon's bound contains every coordinate of every ring.
proof fn lemma_vb_polygon_contains(p: Polygon, s: Style, k: int)
    requires
        spec_stroke_or_one(s) >= 0,
        polygon_covered(p),
        0 <= k < coords_of_polygon(p).len(),
    ensures
        vb_contains_coord(vb_polygon(p, s), coords_of_polygon(p)[k]),
{
    let ext = p.exterior.0@;
    let c = coords_of_polygon(p)[k];
    if k < ext.len() {
        assert(ext.len() >= 2);
        lemma_vb_segments_contains(ext, s, k);
    } else {
        lemma_vb_rings_contains(p.interiors@, s, k - ext.len());
    }
    lemma_add_contains(vb_segments(ext, s), vb_rings(p.interiors@, s), c.x as int, c.y as int);
}

/// The fold of point bounds contains every point.
proof fn lemma_vb_points_contains(ps: Seq<Point>, s: Style, k: int)
    requires
        s.radius >= 0,
        spec_stroke_or_one(s) >= 0,
        0 <= k < coords_of_points(ps).len(),
    ensures
        vb_contains_coord(vb_points(ps, s), coords_of_points(ps)[k]),
    decreases ps.len(),
{
    let pre = coords_of_points(ps.drop_last());
    let c = coords_of_points(ps)[k];
    if k < pre.len() {
        lemma_vb_points_contains(ps.drop_last(), s, k);
    } else {
        lemma_vb_coord_contains(ps.last().0, spec_point_pad(s));
    }
    lemma_add_contains(
        vb_points(ps.drop_last(), s),
        vb_point(ps.last(), s),
        c.x as int,
        c.y as int,
    );
}

/// The fold of polygon bounds contains every coordinate of every covered
/// polygon.
proof fn lemma_vb_polygons_contains(ps: Seq<Polygon>, s: Style, k: int)
    requires
        spec_stroke_or_one(s) >= 0,
        forall|i: int| 0 <= i < ps.len() ==> #[trigger] polygon_covered(ps[i]),
        0 <= k < coords_of_polygons(ps).len(),
    ensures
        vb_contains_coord(vb_polygons(ps, s), coords_of_polygons(ps)[k]),
    decreases ps.len(),
{
    let pre = coords_of_polygons(ps.drop_last());
    let c = coords_of_polygons(ps)[k];
    if k < pre.len() {
        assert(forall|i: int|
            0 <= i < ps.len() - 1 ==> ps.drop_last()[i] == ps[i]);
        lemma_vb_polygons_contains(ps.drop_last(), s, k);
    } else {
        assert(polygon_covered(ps[ps.len() - 1]));
        lemma_vb_polygon_contains(ps.last(), s, k - pre.len());
    }
    lemma_add_contains(
        vb_polygons(ps.drop_last(), s),
        vb_polygon(ps.last(), s),
        c.x as int,
        c.y as int,
    );
}

/// Law: under a style with nonnegative radius and stroke width, the bound of
/// a geometry contains every coordinate of the geometry, whenever no contour
/// of the geometry consists of exactly one coordinate (such a contour forms
/// no segment and its bound is empty).
#[verifier::rlimit(50)]
pub proof fn lemma_bound_contains_coords(g: Geometry, s: Style, k: int)
    requires
        s.radius >= 0,
        spec_stroke_or_one(s) >= 0,
        geometry_covered(g),
        0 <= k < coords_of_geometry(g).len(),
    ensures
        vb_contains_coord(vb_geometry(g, s), coords_of_geometry(g)[k]),
    decreases g, 1int,
{
    match g {
        Geometry::Point(p) => {
            lemma_vb_coord_contains(p.0, spec_point_pad(s));
        },
        Geometry::Line(l) => {
            lemma_vb_line_contains(l, s);
        },
        Geometry::LineString(ls) => {
            lemma_vb_segments_contains(ls.0@, s, k);
        },
        Geometry::Polygon(p) => {
            lemma_vb_polygon_contains(p, s, k);
        },
        Geometry::Rect(r) => {
            lemma_vb_segments_contains(r.spec_ring(), s, k);
            lemma_add_identity(vb_segments(r.spec_ring(), s));
        },
        Geometry::Triangle(t) => {
            lemma_vb_segments_contains(t.spec_ring(), s, k);
            lemma_add_identity(vb_segments(t.spec_ring(), s));
        },
        Geometry::MultiPoint(mp) => {
            lemma_vb_points_contains(mp.0@, s, k);
        },
        Geometry::MultiLineString(mls) => {
            lemma_vb_rings_contains(mls.0@, s, k);
        },
        Geometry::MultiPolygon(mp) => {
            lemma_vb_polygons_contains(mp.0@, s, k);
        },
        Geometry::GeometryCollection(gc) => {
            lemma_bound_contains_coords_seq(gc.0@, s, k);
        },
    }
}

/// The union of the bounds of a sequence of geometries contains every
/// coordinate of every member.
pub proof fn lemma_bound_contains_coords_seq(gs: Seq<Geometry>, s: Style, k: int)
    requires
        s.radius >= 0,
        spec_stroke_or_one(s) >= 0,
        geometries_covered(gs),
        0 <= k < coords_of_geometries(gs).len(),
    ensures
        vb_contains_coord(vb_geometries(gs, s), coords_of_geometries(gs)[k]),
    decreases gs, 0int,
{
    let pre = coords_of_geometries(gs.drop_last());
    let c = coords_of_geometries(gs)[k];
    if k < pre.len() {
        lemma_bound_contains_coords_seq(gs.drop_last(), s, k);
    } else {
        lemma_bound_contains_coords(gs.last(), s, k - pre.len());
    }
    lemma_add_contains(
        vb_geometries(gs.drop_last(), s),
        vb_geometry(gs.last(), s),
        c.x as int,
        c.y as int,
    );
}

} // verus!
