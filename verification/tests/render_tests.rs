use geo_svg::geometry::{
    Coordinate, Geometry, GeometryCollection, Line, LineString, MultiLineString, MultiPoint,
    MultiPolygon, Point, Polygon, Rect, Triangle,
};
use geo_svg::render;
use geo_svg::style::{PointType, Style};
use geo_svg::to_svg::ToSvgStr;

fn c(x: i32, y: i32) -> Coordinate {
    Coordinate { x, y }
}

#[test]
fn circle_mode_point() {
    let style = Style {
        point_type: Some(PointType::Circle),
        radius: 10,
        attrs: String::from(" fill=\"red\""),
        ..Default::default()
    };
    let p = Point::new(0, 0);
    assert_eq!(p.to_svg_str(&style), "<circle cx=\"0\" cy=\"0\" r=\"10\" fill=\"red\"/>");
}

#[test]
fn symbol_mode_matches_circle_mode() {
    let mut style = Style {
        point_type: Some(PointType::Circle),
        radius: 3,
        ..Default::default()
    };
    let p = Point::new(7, -2);
    let as_circle = p.to_svg_str(&style);
    style.point_type = Some(PointType::Symbol);
    assert_eq!(p.to_svg_str(&style), as_circle);
    assert_eq!(as_circle, "<circle cx=\"7\" cy=\"-2\" r=\"3\"/>");
}

#[test]
fn fallback_point_carries_marker() {
    let style = Style { radius: 2, ..Default::default() };
    let p = Point::new(3, -4);
    assert_eq!(p.to_svg_str(&style), "<circle alt=\"point_type_none\" cx=\"3\" cy=\"-4\" r=\"2\"/>");
}

#[test]
fn text_mode_point() {
    let style = Style {
        point_type: Some(PointType::Text),
        text: Some(String::from("hi")),
        text_classes: Some(String::from("lbl")),
        ..Default::default()
    };
    let p = Point::new(5, 6);
    assert_eq!(p.to_svg_str(&style), "<text class=\"lbl\" x=\"5\" y=\"6\" >hi</text>");
}

#[test]
fn text_mode_point_without_text_or_classes() {
    let style = Style { point_type: Some(PointType::Text), ..Default::default() };
    let p = Point::new(1, 2);
    assert_eq!(p.to_svg_str(&style), "<text class=\"\" x=\"1\" y=\"2\" ></text>");
}

#[test]
fn poi_point_defaults_without_text() {
    let style = Style { point_type: Some(PointType::Poi), ..Default::default() };
    let p = Point::new(0, 0);
    let frag = p.to_svg_str(&style);
    assert_eq!(
        frag,
        "<svg x=\"-30\" y=\"-30\" width=\"60\" height=\"60\" viewBox=\"0 0 100 100\" ></svg>"
    );
    assert!(!frag.contains("<text"));
}

#[test]
fn poi_point_with_label_and_icon() {
    let style = Style {
        point_type: Some(PointType::Poi),
        text: Some(String::from("T")),
        icon_svg_viewbox: Some((-1, 2, 48, 50)),
        icon_svg_width_height: Some((20, 10)),
        icon_svg_path: Some(String::from("<path d=\"M 0 0\"/>")),
        ..Default::default()
    };
    let p = Point::new(100, 200);
    assert_eq!(
        p.to_svg_str(&style),
        "<svg x=\"90\" y=\"195\" width=\"20\" height=\"10\" viewBox=\"-1 2 48 50\" >\
         <path d=\"M 0 0\"/></svg><text x=\"125\" y=\"165\">T</text>"
    );
}

#[test]
fn line_renders_as_open_path() {
    let style = Style::default();
    let l = Line::new(c(1, 2), c(3, 4));
    assert_eq!(l.to_svg_str(&style), "<path d=\"M 1 2 L 3 4\"/>");
}

#[test]
fn linestring_with_text_but_no_id_emits_no_text_on_path() {
    let style = Style { text: Some(String::from("Main St")), ..Default::default() };
    let ls = LineString::new(vec![c(0, 0), c(10, 0)]);
    let frag = ls.to_svg_str(&style);
    assert_eq!(frag, "<path d=\"M 0 0 L 10  0\"/>");
    assert!(!frag.contains("textPath"));
}

#[test]
fn linestring_with_text_and_id_emits_text_on_path() {
    let style = Style {
        text: Some(String::from("Main St")),
        id: Some(String::from("p1")),
        text_start_offset: Some(7),
        ..Default::default()
    };
    let ls = LineString::new(vec![c(0, 0), c(10, 0), c(10, 5)]);
    assert_eq!(
        ls.to_svg_str(&style),
        "<path d=\"M 0 0 L 10  0 M 10 0 L 10  5\"/><text class=\"\">\
         <textPath xlink:href=\"#p1\"startOffset=\"7\">Main St<textPath/></text>"
    );
}

#[test]
fn short_linestring_renders_empty_path_data() {
    let style = Style::default();
    let one = LineString::new(vec![c(4, 4)]);
    assert_eq!(one.to_svg_str(&style), "<path d=\"\"/>");
    let none = LineString::new(vec![]);
    assert_eq!(none.to_svg_str(&style), "<path d=\"\"/>");
}

#[test]
fn polygon_with_one_hole_has_two_closed_subpaths() {
    let style = Style::default();
    let poly = Polygon::new(
        LineString::new(vec![c(210, 0), c(300, 0), c(300, 90), c(210, 90)]),
        vec![LineString::new(vec![c(230, 20), c(280, 20), c(280, 70), c(230, 70)])],
    );
    let frag = poly.to_svg_str(&style);
    assert_eq!(
        frag,
        "<path fill-rule=\"evenodd\" d=\"\
         M 210 0 L 300 0 L 300 90 L 210 90 L 210 0 Z \
         M 230 20 L 280 20 L 280 70 L 230 70 L 230 20 Z \"/>"
    );
    assert_eq!(frag.matches(" Z ").count(), 2);
    assert!(frag.contains("fill-rule=\"evenodd\""));
}

#[test]
fn rect_renders_as_four_vertex_closed_polygon() {
    let style = Style::default();
    let r = Rect::new(c(0, 0), c(10, 10));
    let frag = r.to_svg_str(&style);
    assert_eq!(
        frag,
        "<path fill-rule=\"evenodd\" d=\"M 10 0 L 10 10 L 0 10 L 0 0 L 10 0 Z \"/>"
    );
    assert_eq!(frag.matches(" Z ").count(), 1);
}

#[test]
fn triangle_renders_as_closed_polygon() {
    let style = Style::default();
    let t = Triangle(c(0, 0), c(10, 0), c(5, 8));
    assert_eq!(
        t.to_svg_str(&style),
        "<path fill-rule=\"evenodd\" d=\"M 0 0 L 10 0 L 5 8 L 0 0 Z \"/>"
    );
}

#[test]
fn coordinate_renders_as_point() {
    let style = Style { point_type: Some(PointType::Circle), radius: 1, ..Default::default() };
    let coord = c(-5, -7);
    assert_eq!(coord.to_svg_str(&style), Point::new(-5, -7).to_svg_str(&style));
    assert_eq!(coord.to_svg_str(&style), "<circle cx=\"-5\" cy=\"-7\" r=\"1\"/>");
}

#[test]
fn multipoint_renders_points_in_input_order() {
    let style = Style { point_type: Some(PointType::Circle), radius: 2, ..Default::default() };
    let a = Point::new(0, 0);
    let b = Point::new(50, 0);
    let mp = MultiPoint(vec![a, b]);
    let joined = format!("{}{}", a.to_svg_str(&style), b.to_svg_str(&style));
    assert_eq!(mp.to_svg_str(&style), joined);
    assert_eq!(
        mp.to_svg_str(&style),
        "<circle cx=\"0\" cy=\"0\" r=\"2\"/><circle cx=\"50\" cy=\"0\" r=\"2\"/>"
    );
}

#[test]
fn multilinestring_concatenates_members() {
    let style = Style::default();
    let m = MultiLineString(vec![
        LineString::new(vec![c(0, 0), c(1, 0)]),
        LineString::new(vec![c(2, 2), c(3, 2)]),
    ]);
    assert_eq!(m.to_svg_str(&style), "<path d=\"M 0 0 L 1  0\"/><path d=\"M 2 2 L 3  2\"/>");
}

#[test]
fn multipolygon_concatenates_members() {
    let style = Style::default();
    let p1 = Polygon::new(LineString::new(vec![c(0, 0), c(1, 0), c(0, 1)]), vec![]);
    let p2 = Polygon::new(LineString::new(vec![c(5, 5), c(6, 5), c(5, 6)]), vec![]);
    let mp = MultiPolygon(vec![p1, p2]);
    assert_eq!(
        mp.to_svg_str(&style),
        "<path fill-rule=\"evenodd\" d=\"M 0 0 L 1 0 L 0 1 L 0 0 Z \"/>\
         <path fill-rule=\"evenodd\" d=\"M 5 5 L 6 5 L 5 6 L 5 5 Z \"/>"
    );
}

#[test]
fn geometry_dispatch_and_collection_recursion() {
    let style = Style { point_type: Some(PointType::Circle), radius: 1, ..Default::default() };
    let inner = Geometry::GeometryCollection(GeometryCollection(vec![Geometry::Point(
        Point::new(8, 9),
    )]));
    let g = Geometry::GeometryCollection(GeometryCollection(vec![
        Geometry::Line(Line::new(c(0, 0), c(1, 1))),
        inner,
    ]));
    assert_eq!(render(&g, &style), "<path d=\"M 0 0 L 1 1\"/><circle cx=\"8\" cy=\"9\" r=\"1\"/>");
}

#[test]
fn geometry_rect_normalizes_to_polygon() {
    let style = Style::default();
    let r = Rect::new(c(0, 0), c(2, 2));
    let g = Geometry::Rect(r);
    assert_eq!(render(&g, &style), r.to_polygon().to_svg_str(&style));
}

#[test]
fn empty_collection_renders_nothing() {
    let style = Style::default();
    let g = Geometry::GeometryCollection(GeometryCollection(vec![]));
    assert_eq!(render(&g, &style), "");
}

#[test]
fn vec_of_items_renders_in_order() {
    let style = Style::default();
    let items = vec![Line::new(c(0, 0), c(1, 0)), Line::new(c(2, 0), c(3, 0))];
    assert_eq!(items.to_svg_str(&style), "<path d=\"M 0 0 L 1 0\"/><path d=\"M 2 0 L 3 0\"/>");
    assert_eq!(items.as_slice().to_svg_str(&style), items.to_svg_str(&style));
}
