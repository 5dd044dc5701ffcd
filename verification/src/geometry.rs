//! The closed union of geometry variants that the renderer dispatches over,
//! with plain integer coordinates.

use vstd::prelude::*;

verus! {

/// A position on the plane.
#[derive(Clone, Copy, PartialEq, Eq, Structural, Debug)]
pub struct Coordinate {
    pub x: i32,
    pub y: i32,
}

/// A single point.
#[derive(Clone, Copy, PartialEq, Eq, Structural, Debug)]
pub struct Point(pub Coordinate);

impl Point {
    pub fn new(x: i32, y: i32) -> (r: Point)
        ensures
            r == Point(Coordinate { x, y }),
    {
        Point(Coordinate { x, y })
    }

    pub fn x(&self) -> (r: i32)
        ensures
            r == self.0.x,
    {
        self.0.x
    }

    pub fn y(&self) -> (r: i32)
        ensures
            r == self.0.y,
    {
        self.0.y
    }
}

/// A segment between two coordinates.
#[derive(Clone, Copy, PartialEq, Eq, Structural, Debug)]
pub struct Line {
    pub start: Coordinate,
    pub end: Coordinate,
}

impl Line {
    pub fn new(start: Coordinate, end: Coordinate) -> (r: Line)
        ensures
            r == (Line { start, end }),
    {
        Line { start, end }
    }
}

/// An ordered sequence of coordinates: an open path, or one ring of a polygon.
#[derive(Clone, Debug)]
pub struct LineString(pub Vec<Coordinate>);

impl LineString {
    /// Whether the first coordinate equals the last; an empty sequence counts
    /// as closed.
    pub open spec fn spec_is_closed(self) -> bool {
        self.0@.len() == 0 || self.0@.first() == self.0@.last()
    }

    /// The coordinates with the ring closed: the first coordinate is appended
    /// when it does not already stand at the end.
    pub open spec fn spec_closed(self) -> Seq<Coordinate> {
        if self.spec_is_closed() {
            self.0@
        } else {
            self.0@.push(self.0@.first())
        }
    }

    pub fn new(coords: Vec<Coordinate>) -> (r: LineString)
        ensures
            r.0@ == coords@,
    {
        LineString(coords)
    }

    /// Appends the first coordinate when the ring is not yet closed.
    pub fn close(&mut self)
        ensures
            final(self).0@ == old(self).spec_closed(),
    {
        if self.0.len() > 0 {
            let first = self.0[0];
            let last = self.0[self.0.len() - 1];
            if !(first == last) {
                self.0.push(first);
            }
        }
    }
}

/// An exterior ring and any number of interior rings (holes). The
/// constructor closes every ring; the renderer and the bound read the rings
/// as stored.
#[derive(Clone, Debug)]
pub struct Polygon {
    pub exterior: LineString,
    pub interiors: Vec<LineString>,
}

impl Polygon {
    /// Builds a polygon, closing the exterior ring and every interior ring.
    pub fn new(exterior: LineString, interiors: Vec<LineString>) -> (r: Polygon)
        ensures
            r.exterior.0@ == exterior.spec_closed(),
            r.interiors@.len() == interiors@.len(),
            forall|i: int|
                0 <= i < interiors@.len() ==> #[trigger] r.interiors@[i].0@
                    == interiors@[i].spec_closed(),
    {
        let mut ext = exterior;
        ext.close();
        let mut ins = interiors;
        let ghost orig = ins@;
        let n = ins.len();
        for i in 0..n
            invariant
                n == ins@.len(),
                orig.len() == n,
                forall|k: int| 0 <= k < i ==> #[trigger] ins@[k].0@ == orig[k].spec_closed(),
                forall|k: int| i <= k < n ==> #[trigger] ins@[k] == orig[k],
        {
            ins[i].close();
        }
        Polygon { exterior: ext, interiors: ins }
    }
}

/// An axis-aligned rectangle given by its lower and upper corners.
#[derive(Clone, Copy, PartialEq, Eq, Structural, Debug)]
pub struct Rect {
    pub min: Coordinate,
    pub max: Coordinate,
}

impl Rect {
    /// Builds a rectangle from two corners, sorting each axis so that
    /// `min <= max` holds componentwise.
    pub fn new(c1: Coordinate, c2: Coordinate) -> (r: Rect)
        ensures
            r.min.x == if c1.x < c2.x { c1.x } else { c2.x },
            r.max.x == if c1.x < c2.x { c2.x } else { c1.x },
            r.min.y == if c1.y < c2.y { c1.y } else { c2.y },
            r.max.y == if c1.y < c2.y { c2.y } else { c1.y },
    {
        let (min_x, max_x) = if c1.x < c2.x {
            (c1.x, c2.x)
        } else {
            (c2.x, c1.x)
        };
        let (min_y, max_y) = if c1.y < c2.y {
            (c1.y, c2.y)
        } else {
            (c2.y, c1.y)
        };
        Rect { min: Coordinate { x: min_x, y: min_y }, max: Coordinate { x: max_x, y: max_y } }
    }

    /// The ring of the rectangle's polygon: counterclockwise from
    /// `(max.x, min.y)`, closed.
    pub open spec fn spec_ring(self) -> Seq<Coordinate> {
        seq![
            Coordinate { x: self.max.x, y: self.min.y },
            Coordinate { x: self.max.x, y: self.max.y },
            Coordinate { x: self.min.x, y: self.max.y },
            Coordinate { x: self.min.x, y: self.min.y },
            Coordinate { x: self.max.x, y: self.min.y },
        ]
    }

    /// The rectangle as its four-corner polygon with no holes.
    pub fn to_polygon(&self) -> (r: Polygon)
        ensures
            r.exterior.0@ == self.spec_ring(),
            r.interiors@.len() == 0,
    {
        let mut ring: Vec<Coordinate> = Vec::new();
        ring.push(Coordinate { x: self.max.x, y: self.min.y });
        ring.push(Coordinate { x: self.max.x, y: self.max.y });
        ring.push(Coordinate { x: self.min.x, y: self.max.y });
        ring.push(Coordinate { x: self.min.x, y: self.min.y });
        ring.push(Coordinate { x: self.max.x, y: self.min.y });
        proof {
            assert(ring@ =~= self.spec_ring());
        }
        Polygon { exterior: LineString(ring), interiors: Vec::new() }
    }
}

/// A triangle given by its three corners.
#[derive(Clone, Copy, PartialEq, Eq, Structural, Debug)]
pub struct Triangle(pub Coordinate, pub Coordinate, pub Coordinate);

impl Triangle {
    /// The ring of the triangle's polygon: the three corners, closed.
    pub open spec fn spec_ring(self) -> Seq<Coordinate> {
        seq![self.0, self.1, self.2, self.0]
    }

    /// The triangle as its three-corner polygon with no holes.
    pub fn to_polygon(&self) -> (r: Polygon)
        ensures
            r.exterior.0@ == self.spec_ring(),
            r.interiors@.len() == 0,
    {
        let mut ring: Vec<Coordinate> = Vec::new();
        ring.push(self.0);
        ring.push(self.1);
        ring.push(self.2);
        ring.push(self.0);
        proof {
            assert(ring@ =~= self.spec_ring());
        }
        Polygon { exterior: LineString(ring), interiors: Vec::new() }
    }

    /// The three corners in order.
    pub fn to_array(&self) -> (r: [Coordinate; 3])
        ensures
            r@ == seq![self.0, self.1, self.2],
    {
        let r = [self.0, self.1, self.2];
        proof {
            assert(r@ =~= seq![self.0, self.1, self.2]);
        }
        r
    }
}

/// A collection of points.
#[derive(Clone, Debug)]
pub struct MultiPoint(pub Vec<Point>);

/// A collection of line strings.
#[derive(Clone, Debug)]
pub struct MultiLineString(pub Vec<LineString>);

/// A collection of polygons.
#[derive(Clone, Debug)]
pub struct MultiPolygon(pub Vec<Polygon>);

/// A collection of arbitrary geometries, possibly nested.
#[derive(Debug)]
pub struct GeometryCollection(pub Vec<Geometry>);

/// The closed union of all geometry variants.
#[derive(Debug)]
pub enum Geometry {
    Point(Point),
    Line(Line),
    LineString(LineString),
    Polygon(Polygon),
    Rect(Rect),
    Triangle(Triangle),
    MultiPoint(MultiPoint),
    MultiLineString(MultiLineString),
    MultiPolygon(MultiPolygon),
    GeometryCollection(GeometryCollection),
}

} // verus!
