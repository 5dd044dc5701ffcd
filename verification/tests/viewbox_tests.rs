use geo_svg::viewbox::ViewBox;

fn rect_vb(min_x: i64, min_y: i64, max_x: i64, max_y: i64) -> ViewBox {
    ViewBox::Rect { min_x, min_y, max_x, max_y }
}

#[test]
fn add_takes_componentwise_extremes() {
    let a = rect_vb(0, 0, 10, 10);
    let b = rect_vb(-5, 3, 7, 20);
    assert_eq!(a.add(&b), rect_vb(-5, 0, 10, 20));
}

#[test]
fn default_is_an_identity_for_add() {
    let a = rect_vb(1, 2, 3, 4);
    assert_eq!(ViewBox::default().add(&a), a);
    assert_eq!(a.add(&ViewBox::default()), a);
    assert_eq!(ViewBox::default().add(&ViewBox::default()), ViewBox::Empty);
}

#[test]
fn add_is_commutative_and_associative() {
    let a = rect_vb(0, 0, 1, 1);
    let b = rect_vb(-4, 2, 0, 9);
    let vb_c = rect_vb(3, -7, 5, 0);
    assert_eq!(a.add(&b), b.add(&a));
    assert_eq!(a.add(&b).add(&vb_c), a.add(&b.add(&vb_c)));
    assert_eq!(a.add(&b).add(&vb_c), rect_vb(-4, -7, 5, 9));
}

#[test]
fn new_builds_the_rectangle_as_given() {
    assert_eq!(ViewBox::new(1, 2, 3, 4), rect_vb(1, 2, 3, 4));
}
