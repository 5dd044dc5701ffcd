use geo_svg::bound;
use geo_svg::geometry::{
    Coordinate, Geometry, GeometryCollection, Line, LineString, MultiPoint, MultiPolygon, Point,
    Polygon, Rect, Triangle,
};
use geo_svg::style::{PointType, Style};
use geo_svg::to_svg::ToSvgStr;
use geo_svg::viewbox::ViewBox;

fn c(x: i32, y: i32) -> Coordinate {
    Coordinate { x, y }
}

fn rect_vb(min_x: i64, min_y: i64, max_x: i64, max_y: i64) -> ViewBox {
    ViewBox::Rect { min_x, min_y, max_x, max_y }
}

#[test]
fn point_bound_is_padded_square() {
    let style = Style { radius: 10, stroke_width: Some(2), ..Default::default() };
    let p = Point::new(0, 0);
    assert_eq!(p.viewbox(&style), rect_vb(-12, -12, 12, 12));
}

#[test]
fn point_bound_defaults_stroke_to_one() {
    let style = Style { radius: 3, ..Default::default() };
    let p = Point::new(5, -5);
    assert_eq!(p.viewbox(&style), rect_vb(1, -9, 9, -1));
}

#[test]
fn point_bound_ignores_point_mode() {
    let base = Style { radius: 4, stroke_width: Some(1), ..Default::default() };
    let p = Point::new(2, 3);
    let plain = p.viewbox(&base);
    for mode in [PointType::Circle, PointType::Symbol, PointType::Text, PointType::Poi] {
        let style = Style { point_type: Some(mode), radius: 4, stroke_width: Some(1), ..Default::default() };
        assert_eq!(p.viewbox(&style), plain);
    }
    assert_eq!(plain, rect_vb(-3, -2, 7, 8));
}

#[test]
fn line_bound_drops_point_radius() {
    let style = Style { radius: 5, stroke_width: Some(2), ..Default::default() };
    let l = Line::new(c(1, 2), c(3, 4));
    assert_eq!(l.viewbox(&style), rect_vb(-1, 0, 5, 6));
}

#[test]
fn rect_bound_is_padded_by_stroke_or_one() {
    let style = Style::default();
    let r = Rect::new(c(0, 0), c(10, 10));
    assert_eq!(r.viewbox(&style), rect_vb(-1, -1, 11, 11));
}

#[test]
fn rect_new_sorts_corners() {
    let r = Rect::new(c(10, 10), c(0, 0));
    assert_eq!(r.min, c(0, 0));
    assert_eq!(r.max, c(10, 10));
}

#[test]
fn polygon_bound_covers_holes_too() {
    let style = Style::default();
    let poly = Polygon::new(
        LineString::new(vec![c(210, 0), c(300, 0), c(300, 90), c(210, 90)]),
        vec![LineString::new(vec![c(230, 20), c(280, 20), c(280, 70), c(230, 70)])],
    );
    assert_eq!(poly.viewbox(&style), rect_vb(209, -1, 301, 91));
}

#[test]
fn triangle_bound_matches_its_polygon() {
    let style = Style { stroke_width: Some(3), ..Default::default() };
    let t = Triangle(c(0, 0), c(10, 0), c(5, 8));
    assert_eq!(t.viewbox(&style), t.to_polygon().viewbox(&style));
    assert_eq!(t.viewbox(&style), rect_vb(-3, -3, 13, 11));
}

#[test]
fn multipoint_bound_unions_point_bounds() {
    let style = Style { radius: 1, ..Default::default() };
    let mp = MultiPoint(vec![Point::new(0, 0), Point::new(10, 10)]);
    assert_eq!(mp.viewbox(&style), rect_vb(-2, -2, 12, 12));
}

#[test]
fn empty_collections_bound_to_the_identity() {
    let style = Style::default();
    assert_eq!(MultiPoint(vec![]).viewbox(&style), ViewBox::Empty);
    assert_eq!(MultiPolygon(vec![]).viewbox(&style), ViewBox::default());
    let g = Geometry::GeometryCollection(GeometryCollection(vec![]));
    assert_eq!(bound(&g, &style), ViewBox::Empty);
}

#[test]
fn single_coordinate_contour_has_empty_bound() {
    let style = Style::default();
    let ls = LineString::new(vec![c(7, 7)]);
    assert_eq!(ls.viewbox(&style), ViewBox::Empty);
}

#[test]
fn collection_bound_unions_members_recursively() {
    let style = Style { radius: 1, ..Default::default() };
    let g = Geometry::GeometryCollection(GeometryCollection(vec![
        Geometry::Point(Point::new(0, 0)),
        Geometry::GeometryCollection(GeometryCollection(vec![Geometry::Line(Line::new(
            c(20, 20),
            c(30, 30),
        ))])),
    ]));
    assert_eq!(bound(&g, &style), rect_vb(-2, -2, 31, 31));
}

#[test]
fn vec_of_items_bound_unions_members() {
    let style = Style { stroke_width: Some(1), ..Default::default() };
    let items = vec![Line::new(c(0, 0), c(1, 0)), Line::new(c(5, 5), c(6, 6))];
    assert_eq!(items.viewbox(&style), rect_vb(-1, -1, 7, 7));
}

#[test]
fn multipolygon_bound_ignores_polygon_order() {
    let style = Style::default();
    let p1 = Polygon::new(LineString::new(vec![c(0, 0), c(4, 0), c(0, 4)]), vec![]);
    let p2 = Polygon::new(LineString::new(vec![c(10, 10), c(14, 10), c(10, 14)]), vec![]);
    let forward = MultiPolygon(vec![p1.clone(), p2.clone()]);
    let backward = MultiPolygon(vec![p2.clone(), p1.clone()]);
    assert_eq!(forward.viewbox(&style), backward.viewbox(&style));
    assert_eq!(forward.viewbox(&style), p1.viewbox(&style).add(&p2.viewbox(&style)));
}

#[test]
fn bound_contains_every_coordinate_of_a_sample() {
    let style = Style { radius: 2, stroke_width: Some(1), ..Default::default() };
    let coords = [c(-3, 4), c(12, -9), c(0, 0)];
    let mp = MultiPoint(coords.iter().map(|&q| Point(q)).collect());
    match mp.viewbox(&style) {
        ViewBox::Rect { min_x, min_y, max_x, max_y } => {
            for q in coords {
                assert!(min_x <= q.x as i64 && q.x as i64 <= max_x);
                assert!(min_y <= q.y as i64 && q.y as i64 <= max_y);
            }
        }
        ViewBox::Empty => panic!("bound of a nonempty multi-point is empty"),
    }
}
