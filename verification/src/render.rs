//! Rendering of every geometry variant into an SVG markup fragment.
//!
//! Each fragment is specified exactly, character for character: the spec
//! functions below state the full text that the executable renderers
//! produce, as concatenations of literal pieces, decimal numbers and the
//! style's text fields.

use vstd::prelude::*;
use vstd::string::StringExecFns;

use crate::geometry::{
    Coordinate, Geometry, GeometryCollection, Line, LineString, MultiLineString, MultiPoint,
    MultiPolygon, Point, Polygon, Rect, Triangle,
};
use crate::num::{i64_str, spec_int_str};
use crate::style::{opt_str, PointType, Style};

verus! {

/// A circle element at `(x, y)`: the rendering of a point in circle or
/// symbol mode.
pub open spec fn circle_svg(x: int, y: int, radius: int, attrs: Seq<char>) -> Seq<char> {
    "<circle cx=\""@ + spec_int_str(x) + "\" cy=\""@ + spec_int_str(y) + "\" r=\""@ + spec_int_str(
        radius,
    ) + "\""@ + attrs + "/>"@
}

/// The circle emitted when no point mode is set: identical to `circle_svg`
/// but tagged with a diagnostic marker.
pub open spec fn fallback_circle_svg(x: int, y: int, radius: int, attrs: Seq<char>) -> Seq<char> {
    "<circle alt=\"point_type_none\" cx=\""@ + spec_int_str(x) + "\" cy=\""@ + spec_int_str(y)
        + "\" r=\""@ + spec_int_str(radius) + "\""@ + attrs + "/>"@
}

/// A text element at `(x, y)`: the rendering of a point in text mode.
pub open spec fn text_point_svg(x: int, y: int, s: Style) -> Seq<char> {
    "<text class=\""@ + opt_str(s.text_classes) + "\" x=\""@ + spec_int_str(x) + "\" y=\""@
        + spec_int_str(y) + "\" "@ + s.attrs@ + ">"@ + opt_str(s.text) + "</text>"@
}

/// The label that follows a point-of-interest icon when the style carries
/// text: placed to the lower right of the icon. Empty when there is no text.
pub open spec fn poi_label_svg(x: int, y: int, w: int, h: int, s: Style) -> Seq<char> {
    match s.text {
        Option::Some(text) => "<text x=\""@ + spec_int_str(x + w / 2 + 15) + "\" y=\""@
            + spec_int_str(y + h - 45) + "\">"@ + text@ + "</text>"@,
        Option::None => Seq::empty(),
    }
}

/// An inner SVG element: the rendering of a point in point-of-interest mode.
/// The icon is centred on the point; absent icon fields fall back to a
/// 60 by 60 icon with inner view box `0 0 100 100` and an empty body.
pub open spec fn poi_svg(p: Point, s: Style) -> Seq<char> {
    let (mx, my, vbw, vbh) = match s.icon_svg_viewbox {
        Option::Some(vb) => vb,
        Option::None => (0i64, 0i64, 100i64, 100i64),
    };
    let (w, h) = match s.icon_svg_width_height {
        Option::Some(wh) => wh,
        Option::None => (60u32, 60u32),
    };
    let x = p.0.x as int;
    let y = p.0.y as int;
    "<svg x=\""@ + spec_int_str(x - (w as int) / 2) + "\" y=\""@ + spec_int_str(
        y - (h as int) / 2,
    ) + "\" width=\""@ + spec_int_str(w as int) + "\" height=\""@ + spec_int_str(h as int)
        + "\" viewBox=\""@ + spec_int_str(mx as int) + " "@ + spec_int_str(my as int) + " "@
        + spec_int_str(vbw as int) + " "@ + spec_int_str(vbh as int) + "\" "@ + s.attrs@ + ">"@
        + opt_str(s.icon_svg_path) + "</svg>"@ + poi_label_svg(x, y, w as int, h as int, s)
}

/// The rendering of a single point under the style's point mode.
pub open spec fn svg_of_point(p: Point, s: Style) -> Seq<char> {
    match s.point_type {
        Option::Some(PointType::Text) => text_point_svg(p.0.x as int, p.0.y as int, s),
        Option::Some(PointType::Poi) => poi_svg(p, s),
        Option::Some(PointType::Circle) => circle_svg(
            p.0.x as int,
            p.0.y as int,
            s.radius as int,
            s.attrs@,
        ),
        Option::Some(PointType::Symbol) => circle_svg(
            p.0.x as int,
            p.0.y as int,
            s.radius as int,
            s.attrs@,
        ),
        Option::None => fallback_circle_svg(p.0.x as int, p.0.y as int, s.radius as int, s.attrs@),
    }
}

/// The rendering of a coordinate: the same as the point at that coordinate.
pub open spec fn svg_of_coordinate(c: Coordinate, s: Style) -> Seq<char> {
    svg_of_point(Point(c), s)
}

/// A two-point open path: the rendering of a line.
pub open spec fn svg_of_line(l: Line, s: Style) -> Seq<char> {
    "<path d=\"M "@ + spec_int_str(l.start.x as int) + " "@ + spec_int_str(l.start.y as int)
        + " L "@ + spec_int_str(l.end.x as int) + " "@ + spec_int_str(l.end.y as int) + "\""@
        + s.attrs@ + "/>"@
}

/// One move/line command pair of a line string's path data.
pub open spec fn seg_d(a: Coordinate, b: Coordinate) -> Seq<char> {
    "M "@ + spec_int_str(a.x as int) + " "@ + spec_int_str(a.y as int) + " L "@ + spec_int_str(
        b.x as int,
    ) + "  "@ + spec_int_str(b.y as int)
}

/// The path data of a line string: one command pair per consecutive
/// coordinate pair, joined by single spaces; empty below two coordinates.
pub open spec fn ls_d(cs: Seq<Coordinate>) -> Seq<char>
    decreases cs.len(),
{
    if cs.len() < 2 {
        Seq::empty()
    } else if cs.len() == 2 {
        seg_d(cs[0], cs[1])
    } else {
        ls_d(cs.drop_last()) + " "@ + seg_d(cs[cs.len() - 2], cs[cs.len() - 1])
    }
}

/// The start-offset attribute of a text-on-path element; empty when the
/// style has no start offset.
pub open spec fn offset_part(o: Option<i64>) -> Seq<char> {
    match o {
        Option::Some(v) => "startOffset=\""@ + spec_int_str(v as int) + "\""@,
        Option::None => Seq::empty(),
    }
}

/// The text-on-path element of a line string: emitted only when the style
/// has both text and an identifier; empty otherwise.
pub open spec fn ls_text(s: Style) -> Seq<char> {
    match (s.text, s.id) {
        (Option::Some(text), Option::Some(id)) => "<text class=\""@ + opt_str(s.text_classes)
            + "\"><textPath xlink:href=\"#"@ + id@ + "\""@ + offset_part(s.text_start_offset)
            + ">"@ + text@ + "<textPath/></text>"@,
        _ => Seq::empty(),
    }
}

/// The rendering of a line string: its path element, then its text-on-path
/// element when the style calls for one.
pub open spec fn svg_of_linestring(ls: LineString, s: Style) -> Seq<char> {
    "<path d=\""@ + ls_d(ls.0@) + "\""@ + s.attrs@ + "/>"@ + ls_text(s)
}

/// The ` L x y` commands for every coordinate of a ring after the first.
pub open spec fn ring_pts(cs: Seq<Coordinate>) -> Seq<char>
    decreases cs.len(),
{
    if cs.len() == 0 {
        Seq::empty()
    } else {
        ring_pts(cs.drop_last()) + " L "@ + spec_int_str(cs.last().x as int) + " "@ + spec_int_str(
            cs.last().y as int,
        )
    }
}

/// One closed subpath of a polygon's path data: move to the first vertex,
/// line to each subsequent vertex, close.
pub open spec fn ring_d(cs: Seq<Coordinate>) -> Seq<char> {
    if cs.len() == 0 {
        " Z "@
    } else {
        "M "@ + spec_int_str(cs[0].x as int) + " "@ + spec_int_str(cs[0].y as int) + ring_pts(
            cs.drop_first(),
        ) + " Z "@
    }
}

/// The closed subpaths of a sequence of rings, in order.
pub open spec fn rings_d(rings: Seq<LineString>) -> Seq<char>
    decreases rings.len(),
{
    if rings.len() == 0 {
        Seq::empty()
    } else {
        rings_d(rings.drop_last()) + ring_d(rings.last().0@)
    }
}

/// A polygon path element under the even-odd fill rule: the exterior ring's
/// closed subpath, then one closed subpath per interior ring, in order.
pub open spec fn svg_of_rings(ext: Seq<Coordinate>, ints: Seq<LineString>, s: Style) -> Seq<char> {
    "<path fill-rule=\"evenodd\" d=\""@ + ring_d(ext) + rings_d(ints) + "\""@ + s.attrs@ + "/>"@
}

/// The rendering of a polygon.
pub open spec fn svg_of_polygon(p: Polygon, s: Style) -> Seq<char> {
    svg_of_rings(p.exterior.0@, p.interiors@, s)
}

/// The rendering of a rectangle: its four-corner polygon with no holes.
pub open spec fn svg_of_rect(r: Rect, s: Style) -> Seq<char> {
    svg_of_rings(r.spec_ring(), Seq::empty(), s)
}

/// The rendering of a triangle: its three-corner polygon with no holes.
pub open spec fn svg_of_triangle(t: Triangle, s: Style) -> Seq<char> {
    svg_of_rings(t.spec_ring(), Seq::empty(), s)
}

/// The concatenation of the renderings of a sequence of points, in order.
pub open spec fn svg_of_points(ps: Seq<Point>, s: Style) -> Seq<char>
    decreases ps.len(),
{
    if ps.len() == 0 {
        Seq::empty()
    } else {
        svg_of_points(ps.drop_last(), s) + svg_of_point(ps.last(), s)
    }
}

/// The rendering of a multi-point.
pub open spec fn svg_of_multipoint(mp: MultiPoint, s: Style) -> Seq<char> {
    svg_of_points(mp.0@, s)
}

/// The concatenation of the renderings of a sequence of line strings.
pub open spec fn svg_of_linestrings(ls: Seq<LineString>, s: Style) -> Seq<char>
    decreases ls.len(),
{
    if ls.len() == 0 {
        Seq::empty()
    } else {
        svg_of_linestrings(ls.drop_last(), s) + svg_of_linestring(ls.last(), s)
    }
}

/// The rendering of a multi-line-string.
pub open spec fn svg_of_multilinestring(mls: MultiLineString, s: Style) -> Seq<char> {
    svg_of_linestrings(mls.0@, s)
}

/// The concatenation of the renderings of a sequence of polygons.
pub open spec fn svg_of_polygons(ps: Seq<Polygon>, s: Style) -> Seq<char>
    decreases ps.len(),
{
    if ps.len() == 0 {
        Seq::empty()
    } else {
        svg_of_polygons(ps.drop_last(), s) + svg_of_polygon(ps.last(), s)
    }
}

/// The rendering of a multi-polygon.
pub open spec fn svg_of_multipolygon(mp: MultiPolygon, s: Style) -> Seq<char> {
    svg_of_polygons(mp.0@, s)
}

/// The rendering of any geometry: one exhaustive dispatch over the variant
/// union; rectangles and triangles render as their polygons.
pub open spec fn svg_of_geometry(g: Geometry, s: Style) -> Seq<char>
    decreases g, 1int,
{
    match g {
        Geometry::Point(p) => svg_of_point(p, s),
        Geometry::Line(l) => svg_of_line(l, s),
        Geometry::LineString(ls) => svg_of_linestring(ls, s),
        Geometry::Polygon(p) => svg_of_polygon(p, s),
        Geometry::Rect(r) => svg_of_rect(r, s),
        Geometry::Triangle(t) => svg_of_triangle(t, s),
        Geometry::MultiPoint(mp) => svg_of_multipoint(mp, s),
        Geometry::MultiLineString(mls) => svg_of_multilinestring(mls, s),
        Geometry::MultiPolygon(mp) => svg_of_multipolygon(mp, s),
        Geometry::GeometryCollection(gc) => svg_of_geometries(gc.0@, s),
    }
}

/// The concatenation of the renderings of a sequence of geometries.
pub open spec fn svg_of_geometries(gs: Seq<Geometry>, s: Style) -> Seq<char>
    decreases gs, 0int,
{
    if gs.len() == 0 {
        Seq::empty()
    } else {
        svg_of_geometries(gs.drop_last(), s) + svg_of_geometry(gs.last(), s)
    }
}

/// Appends the decimal rendering of `v`.
fn append_int(out: &mut String, v: i64)
    ensures
        final(out)@ == old(out)@ + spec_int_str(v as int),
{
    let t = i64_str(v);
    out.append(t.as_str());
}

/// Appends an optional text field; appends nothing when it is absent.
fn append_opt(out: &mut String, o: &Option<String>)
    ensures
        final(out)@ == old(out)@ + opt_str(*o),
{
    match o {
        Option::Some(t) => out.append(t.as_str()),
        Option::None => {
            proof {
                assert(old(out)@ + opt_str(*o) =~= old(out)@);
            }
        },
    }
}

/// Renders a point under the style's point mode.
#[verifier::rlimit(50)]
pub fn render_point(p: &Point, s: &Style) -> (r: String)
    ensures
        r@ == svg_of_point(*p, *s),
{
    let mut out = String::new();
    match s.point_type {
        Option::Some(PointType::Text) => {
            out.append("<text class=\"");
            append_opt(&mut out, &s.text_classes);
            out.append("\" x=\"");
            append_int(&mut out, p.0.x as i64);
            out.append("\" y=\"");
            append_int(&mut out, p.0.y as i64);
            out.append("\" ");
            out.append(s.attrs.as_str());
            out.append(">");
            append_opt(&mut out, &s.text);
            out.append("</text>");
            proof {
                assert(out@ =~= svg_of_point(*p, *s));
            }
        },
        Option::Some(PointType::Poi) => {
            let (mx, my, vbw, vbh) = match s.icon_svg_viewbox {
                Option::Some(vb) => vb,
                Option::None => (0i64, 0i64, 100i64, 100i64),
            };
            let (w, h) = match s.icon_svg_width_height {
                Option::Some(wh) => wh,
                Option::None => (60u32, 60u32),
            };
            let x = p.0.x as i64;
            let y = p.0.y as i64;
            out.append("<svg x=\"");
            append_int(&mut out, x - (w / 2) as i64);
            out.append("\" y=\"");
            append_int(&mut out, y - (h / 2) as i64);
            out.append("\" width=\"");
            append_int(&mut out, w as i64);
            out.append("\" height=\"");
            append_int(&mut out, h as i64);
            out.append("\" viewBox=\"");
            append_int(&mut out, mx);
            out.append(" ");
            append_int(&mut out, my);
            out.append(" ");
            append_int(&mut out, vbw);
            out.append(" ");
            append_int(&mut out, vbh);
            out.append("\" ");
            out.append(s.attrs.as_str());
            out.append(">");
            append_opt(&mut out, &s.icon_svg_path);
            out.append("</svg>");
            match &s.text {
                Option::Some(t) => {
                    out.append("<text x=\"");
                    append_int(&mut out, x + (w / 2) as i64 + 15);
                    out.append("\" y=\"");
                    append_int(&mut out, y + h as i64 - 45);
                    out.append("\">");
                    out.append(t.as_str());
                    out.append("</text>");
                },
                Option::None => {},
            }
            proof {
                assert(out@ =~= svg_of_point(*p, *s));
            }
        },
        Option::Some(PointType::Circle) | Option::Some(PointType::Symbol) => {
            out.append("<circle cx=\"");
            append_int(&mut out, p.0.x as i64);
            out.append("\" cy=\"");
            append_int(&mut out, p.0.y as i64);
            out.append("\" r=\"");
            append_int(&mut out, s.radius as i64);
            out.append("\"");
            out.append(s.attrs.as_str());
            out.append("/>");
            proof {
                assert(out@ =~= svg_of_point(*p, *s));
            }
        },
        Option::None => {
            out.append("<circle alt=\"point_type_none\" cx=\"");
            append_int(&mut out, p.0.x as i64);
            out.append("\" cy=\"");
            append_int(&mut out, p.0.y as i64);
            out.append("\" r=\"");
            append_int(&mut out, s.radius as i64);
            out.append("\"");
            out.append(s.attrs.as_str());
            out.append("/>");
            proof {
                assert(out@ =~= svg_of_point(*p, *s));
            }
        },
    }
    out
}

/// Renders a line as a two-point open path.
pub fn render_line(l: &Line, s: &Style) -> (r: String)
    ensures
        r@ == svg_of_line(*l, *s),
{
    let mut out = String::new();
    out.append("<path d=\"M ");
    append_int(&mut out, l.start.x as i64);
    out.append(" ");
    append_int(&mut out, l.start.y as i64);
    out.append(" L ");
    append_int(&mut out, l.end.x as i64);
    out.append(" ");
    append_int(&mut out, l.end.y as i64);
    out.append("\"");
    out.append(s.attrs.as_str());
    out.append("/>");
    proof {
        assert(out@ =~= svg_of_line(*l, *s));
    }
    out
}

/// Appends one move/line command pair.
fn append_seg(out: &mut String, a: Coordinate, b: Coordinate)
    ensures
        final(out)@ == old(out)@ + seg_d(a, b),
{
    out.append("M ");
    append_int(out, a.x as i64);
    out.append(" ");
    append_int(out, a.y as i64);
    out.append(" L ");
    append_int(out, b.x as i64);
    out.append("  ");
    append_int(out, b.y as i64);
    proof {
        assert(out@ =~= old(out)@ + seg_d(a, b));
    }
}

/// Renders a line string: its path element, then a text-on-path element
/// when the style has both text and an identifier.
pub fn render_linestring(ls: &LineString, s: &Style) -> (r: String)
    ensures
        r@ == svg_of_linestring(*ls, *s),
{
    let n = ls.0.len();
    let mut d = String::new();
    if n >= 2 {
        let mut i: usize = 1;
        proof {
            assert(d@ =~= ls_d(ls.0@.take(1int)));
        }
        while i < n
            invariant
                1 <= i <= n,
                n == ls.0@.len(),
                d@ == ls_d(ls.0@.take(i as int)),
            decreases n - i,
        {
            if i > 1 {
                d.append(" ");
            }
            append_seg(&mut d, ls.0[i - 1], ls.0[i]);
            proof {
                let cs = ls.0@;
                assert(cs.take(i as int + 1).drop_last() =~= cs.take(i as int));
                assert(cs.take(i as int + 1)[i - 1] == cs[i - 1]);
                assert(cs.take(i as int + 1)[i as int] == cs[i as int]);
                assert(d@ =~= ls_d(cs.take(i as int + 1)));
            }
            i = i + 1;
        }
        proof {
            assert(ls.0@.take(n as int) =~= ls.0@);
        }
    } else {
        proof {
            assert(d@ =~= ls_d(ls.0@));
        }
    }
    let mut out = String::new();
    out.append("<path d=\"");
    out.append(d.as_str());
    out.append("\"");
    out.append(s.attrs.as_str());
    out.append("/>");
    match (&s.text, &s.id) {
        (Option::Some(text), Option::Some(id)) => {
            out.append("<text class=\"");
            append_opt(&mut out, &s.text_classes);
            out.append("\"><textPath xlink:href=\"#");
            out.append(id.as_str());
            out.append("\"");
            match s.text_start_offset {
                Option::Some(v) => {
                    out.append("startOffset=\"");
                    append_int(&mut out, v);
                    out.append("\"");
                },
                Option::None => {},
            }
            out.append(">");
            out.append(text.as_str());
            out.append("<textPath/></text>");
        },
        _ => {},
    }
    proof {
        assert(out@ =~= svg_of_linestring(*ls, *s));
    }
    out
}

/// Appends one ring as a closed subpath.
fn append_ring(out: &mut String, ls: &LineString)
    ensures
        final(out)@ == old(out)@ + ring_d(ls.0@),
{
    let n = ls.0.len();
    if n == 0 {
        out.append(" Z ");
        proof {
            assert(out@ =~= old(out)@ + ring_d(ls.0@));
        }
    } else {
        out.append("M ");
        append_int(out, ls.0[0].x as i64);
        out.append(" ");
        append_int(out, ls.0[0].y as i64);
        let ghost pre = out@;
        proof {
            assert(pre + ring_pts(ls.0@.subrange(1, 1)) =~= pre);
        }
        let mut i: usize = 1;
        while i < n
            invariant
                1 <= i <= n,
                n == ls.0@.len(),
                out@ == pre + ring_pts(ls.0@.subrange(1, i as int)),
            decreases n - i,
        {
            out.append(" L ");
            append_int(out, ls.0[i].x as i64);
            out.append(" ");
            append_int(out, ls.0[i].y as i64);
            proof {
                let cs = ls.0@;
                assert(cs.subrange(1, i as int + 1).drop_last() =~= cs.subrange(1, i as int));
                assert(cs.subrange(1, i as int + 1).last() == cs[i as int]);
                assert(out@ =~= pre + ring_pts(cs.subrange(1, i as int + 1)));
            }
            i = i + 1;
        }
        out.append(" Z ");
        proof {
            assert(ls.0@.subrange(1, n as int) =~= ls.0@.drop_first());
            assert(out@ =~= old(out)@ + ring_d(ls.0@));
        }
    }
}

/// Renders a polygon: exterior and interior rings as closed subpaths of one
/// path element under the even-odd fill rule.
pub fn render_polygon(p: &Polygon, s: &Style) -> (r: String)
    ensures
        r@ == svg_of_polygon(*p, *s),
{
    let mut out = String::new();
    out.append("<path fill-rule=\"evenodd\" d=\"");
    append_ring(&mut out, &p.exterior);
    let ghost pre = out@;
    proof {
        assert(pre + rings_d(p.interiors@.take(0int)) =~= pre);
    }
    let m = p.interiors.len();
    let mut j: usize = 0;
    while j < m
        invariant
            0 <= j <= m,
            m == p.interiors@.len(),
            out@ == pre + rings_d(p.interiors@.take(j as int)),
        decreases m - j,
    {
        append_ring(&mut out, &p.interiors[j]);
        proof {
            let rs = p.interiors@;
            assert(rs.take(j as int + 1).drop_last() =~= rs.take(j as int));
            assert(rs.take(j as int + 1).last() == rs[j as int]);
            assert(out@ =~= pre + rings_d(rs.take(j as int + 1)));
        }
        j = j + 1;
    }
    out.append("\"");
    out.append(s.attrs.as_str());
    out.append("/>");
    proof {
        assert(p.interiors@.take(m as int) =~= p.interiors@);
        assert(out@ =~= svg_of_polygon(*p, *s));
    }
    out
}

/// Renders a rectangle as its four-corner polygon.
pub fn render_rect(r: &Rect, s: &Style) -> (res: String)
    ensures
        res@ == svg_of_rect(*r, *s),
{
    let poly = r.to_polygon();
    let res = render_polygon(&poly, s);
    proof {
        assert(poly.interiors@ =~= Seq::<LineString>::empty());
    }
    res
}

/// Renders a triangle as its three-corner polygon.
pub fn render_triangle(t: &Triangle, s: &Style) -> (res: String)
    ensures
        res@ == svg_of_triangle(*t, *s),
{
    let poly = t.to_polygon();
    let res = render_polygon(&poly, s);
    proof {
        assert(poly.interiors@ =~= Seq::<LineString>::empty());
    }
    res
}

/// Renders a multi-point: the concatenation of its points' renderings.
pub fn render_multipoint(mp: &MultiPoint, s: &Style) -> (r: String)
    ensures
        r@ == svg_of_multipoint(*mp, *s),
{
    let mut out = String::new();
    let n = mp.0.len();
    proof {
        assert(out@ =~= svg_of_points(mp.0@.take(0int), *s));
    }
    let mut i: usize = 0;
    while i < n
        invariant
            0 <= i <= n,
            n == mp.0@.len(),
            out@ == svg_of_points(mp.0@.take(i as int), *s),
        decreases n - i,
    {
        let piece = render_point(&mp.0[i], s);
        out.append(piece.as_str());
        proof {
            let ps = mp.0@;
            assert(ps.take(i as int + 1).drop_last() =~= ps.take(i as int));
            assert(ps.take(i as int + 1).last() == ps[i as int]);
        }
        i = i + 1;
    }
    proof {
        assert(mp.0@.take(n as int) =~= mp.0@);
    }
    out
}

/// Renders a multi-line-string: the concatenation of its members' renderings.
pub fn render_multilinestring(mls: &MultiLineString, s: &Style) -> (r: String)
    ensures
        r@ == svg_of_multilinestring(*mls, *s),
{
    let mut out = String::new();
    let n = mls.0.len();
    proof {
        assert(out@ =~= svg_of_linestrings(mls.0@.take(0int), *s));
    }
    let mut i: usize = 0;
    while i < n
        invariant
            0 <= i <= n,
            n == mls.0@.len(),
            out@ == svg_of_linestrings(mls.0@.take(i as int), *s),
        decreases n - i,
    {
        let piece = render_linestring(&mls.0[i], s);
        out.append(piece.as_str());
        proof {
            let ps = mls.0@;
            assert(ps.take(i as int + 1).drop_last() =~= ps.take(i as int));
            assert(ps.take(i as int + 1).last() == ps[i as int]);
        }
        i = i + 1;
    }
    proof {
        assert(mls.0@.take(n as int) =~= mls.0@);
    }
    out
}

/// Renders a multi-polygon: the concatenation of its members' renderings.
pub fn render_multipolygon(mp: &MultiPolygon, s: &Style) -> (r: String)
    ensures
        r@ == svg_of_multipolygon(*mp, *s),
{
    let mut out = String::new();
    let n = mp.0.len();
    proof {
        assert(out@ =~= svg_of_polygons(mp.0@.take(0int), *s));
    }
    let mut i: usize = 0;
    while i < n
        invariant
            0 <= i <= n,
            n == mp.0@.len(),
            out@ == svg_of_polygons(mp.0@.take(i as int), *s),
        decreases n - i,
    {
        let piece = render_polygon(&mp.0[i], s);
        out.append(piece.as_str());
        proof {
            let ps = mp.0@;
            assert(ps.take(i as int + 1).drop_last() =~= ps.take(i as int));
            assert(ps.take(i as int + 1).last() == ps[i as int]);
        }
        i = i + 1;
    }
    proof {
        assert(mp.0@.take(n as int) =~= mp.0@);
    }
    out
}

/// Renders any geometry by dispatching on its variant; rectangles and
/// triangles are normalized to polygons first.
pub fn render_geometry(g: &Geometry, s: &Style) -> (r: String)
    ensures
        r@ == svg_of_geometry(*g, *s),
    decreases *g, 1int,
{
    match g {
        Geometry::Point(p) => render_point(p, s),
        Geometry::Line(l) => render_line(l, s),
        Geometry::LineString(ls) => render_linestring(ls, s),
        Geometry::Polygon(p) => render_polygon(p, s),
        Geometry::Rect(r) => render_rect(r, s),
        Geometry::Triangle(t) => render_triangle(t, s),
        Geometry::MultiPoint(mp) => render_multipoint(mp, s),
        Geometry::MultiLineString(mls) => render_multilinestring(mls, s),
        Geometry::MultiPolygon(mp) => render_multipolygon(mp, s),
        Geometry::GeometryCollection(gc) => render_geometries(&gc.0, s),
    }
}

/// Renders a sequence of geometries: the concatenation of the members'
/// renderings, in order.
pub fn render_geometries(gs: &Vec<Geometry>, s: &Style) -> (r: String)
    ensures
        r@ == svg_of_geometries(gs@, *s),
    decreases gs@, 0int,
{
    let mut out = String::new();
    let n = gs.len();
    proof {
        assert(out@ =~= svg_of_geometries(gs@.take(0int), *s));
    }
    let mut i: usize = 0;
    while i < n
        invariant
            0 <= i <= n,
            n == gs@.len(),
            out@ == svg_of_geometries(gs@.take(i as int), *s),
        decreases n - i,
    {
        let piece = render_geometry(&gs[i], s);
        out.append(piece.as_str());
        proof {
            assert(gs@.take(i as int + 1).drop_last() =~= gs@.take(i as int));
            assert(gs@.take(i as int + 1).last() == gs@[i as int]);
        }
        i = i + 1;
    }
    proof {
        assert(gs@.take(n as int) =~= gs@);
    }
    out
}

} // verus!
