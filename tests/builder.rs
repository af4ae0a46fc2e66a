use gfx::{Element, Position, Rgba, Vertex};

fn point(x: f32, y: f32, z: f32) -> Position {
    [x.to_bits(), y.to_bits(), z.to_bits()]
}

fn rgba(r: f32, g: f32, b: f32, a: f32) -> Rgba {
    [r.to_bits(), g.to_bits(), b.to_bits(), a.to_bits()]
}

fn triangle() -> Vec<Position> {
    vec![
        point(-0.0868241, 0.49240386, 0.0),
        point(-0.49513406, 0.06958647, 0.0),
        point(-0.21918549, -0.44939706, 0.0),
    ]
}

#[test]
fn new_element_builds_nothing() {
    let out: Vec<Vertex> = Element::new().build();
    assert!(out.is_empty());
}

#[test]
fn new_element_has_no_points() {
    let e = Element::new();
    assert!(e.shape.is_empty());
}

#[test]
fn shape_gives_one_vertex_per_point_in_default_color() {
    let pts = triangle();
    let out = Element::new().with_shape(pts.clone()).build();
    assert_eq!(out.len(), pts.len());
    for (v, p) in out.iter().zip(pts.iter()) {
        assert_eq!(v.position, *p);
        assert_eq!(v.color, rgba(0.0, 0.0, 0.0, 0.0));
        assert_eq!(v.color, [0, 0, 0, 0]);
        assert_eq!(v.padding, [0.0f32.to_bits()]);
    }
}

#[test]
fn color_after_shape_applies_to_every_vertex() {
    let red = rgba(1.0, 0.0, 0.0, 0.0);
    let blue = rgba(0.0, 0.0, 1.0, 0.5);
    let out = Element::new().with_color(red).with_shape(triangle()).with_color(blue).build();
    assert_eq!(out.len(), 3);
    for v in &out {
        assert_eq!(v.color, blue);
    }
}

#[test]
fn color_before_shape_applies_to_every_vertex() {
    let red = rgba(1.0, 0.0, 0.0, 0.0);
    let out = Element::new().with_color(red).with_shape(triangle()).build();
    assert_eq!(out.len(), 3);
    assert_eq!(out[0].position, point(-0.0868241, 0.49240386, 0.0));
    assert_eq!(out[2].position, point(-0.21918549, -0.44939706, 0.0));
    assert!(out.iter().all(|v| v.color == red));
    assert_eq!(f32::from_bits(out[1].position[1]), 0.06958647);
    assert_eq!(f32::from_bits(out[1].color[0]), 1.0);
}

#[test]
fn later_shape_replaces_earlier_one() {
    let out = Element::new()
        .with_shape(triangle())
        .with_shape(vec![point(1.0, 2.0, 3.0)])
        .build();
    assert_eq!(out.len(), 1);
    assert_eq!(out[0].position, point(1.0, 2.0, 3.0));
}

#[test]
fn empty_shape_with_color_builds_nothing() {
    let out = Element::new().with_color(rgba(1.0, 1.0, 1.0, 1.0)).with_shape(Vec::new()).build();
    assert!(out.is_empty());
}
