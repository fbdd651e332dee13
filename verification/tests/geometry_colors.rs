use bear_lib_terminal::colors::{from_color_t, to_color_t, Color};
use bear_lib_terminal::geometry::{Point, Rect, Size};

#[test]
fn point_round_trips_fields() {
    for &(x, y) in &[(0, 0), (1, 2), (10, 20), (2147483647, 0), (0, 2147483647)] {
        let p = Point::new(x, y);
        assert_eq!(p.x, x);
        assert_eq!(p.y, y);
    }
}

#[test]
fn size_round_trips_fields() {
    let s = Size::new(80, 25);
    assert_eq!(s.width, 80);
    assert_eq!(s.height, 25);
}

#[test]
fn color_from_rgb_is_opaque() {
    let c = Color::from_rgb(0xFA, 0xAF, 0x29);
    assert_eq!(c.red, 0xFA);
    assert_eq!(c.green, 0xAF);
    assert_eq!(c.blue, 0x29);
    assert_eq!(c.alpha, 0xFF);
}

#[test]
fn color_pack_exact() {
    assert_eq!(to_color_t(Color::from_rgba(0x01, 0x02, 0x03, 0x04)), 0x04010203);
    assert_eq!(to_color_t(Color::from_rgb(0xFF, 0x00, 0x00)), 0xFFFF0000);
    assert_eq!(to_color_t(Color::from_rgba(0, 0, 0, 0)), 0);
}

#[test]
fn color_unpack_exact() {
    let c = from_color_t(0x04010203);
    assert_eq!(c, Color::from_rgba(0x01, 0x02, 0x03, 0x04));
    let c = from_color_t(0xFFFFFFFF);
    assert_eq!(c, Color::from_rgba(0xFF, 0xFF, 0xFF, 0xFF));
}

#[test]
fn color_wire_round_trip() {
    let samples = [0u8, 1, 0x29, 0x7F, 0x80, 0xAF, 0xFE, 0xFF];
    for &r in &samples {
        for &g in &samples {
            for &b in &samples {
                for &a in &samples {
                    let c = Color::from_rgba(r, g, b, a);
                    assert_eq!(from_color_t(to_color_t(c)), c);
                }
            }
        }
    }
}

#[test]
fn rect_from_size_end_to_end() {
    let rect = Rect::from_size(Point::new(10, 20), Size::new(30, 40));
    assert_eq!(rect.top_left, Point::new(10, 20));
    assert_eq!(rect.top_right, Point::new(40, 20));
    assert_eq!(rect.bottom_left, Point::new(10, 60));
    assert_eq!(rect.bottom_right, Point::new(40, 60));
    assert_eq!(rect.size, Size::new(30, 40));
}

#[test]
fn rect_from_points() {
    let rect = Rect::from_points(Point::new(10, 20), Point::new(30, 40));
    assert_eq!(rect.top_left, Point::new(10, 20));
    assert_eq!(rect.top_right, Point::new(30, 20));
    assert_eq!(rect.bottom_left, Point::new(10, 40));
    assert_eq!(rect.bottom_right, Point::new(30, 40));
    assert_eq!(rect.size, Size::new(20, 20));
}

#[test]
fn rect_from_values_matches_from_size() {
    assert_eq!(
        Rect::from_values(10, 20, 30, 40),
        Rect::from_size(Point::new(10, 20), Size::new(30, 40))
    );
}

#[test]
fn rect_from_point_values_matches_from_points() {
    assert_eq!(
        Rect::from_point_values(10, 20, 30, 40),
        Rect::from_points(Point::new(10, 20), Point::new(30, 40))
    );
}

#[test]
fn rect_empty_size_collapses_corners() {
    let rect = Rect::from_size(Point::new(5, 7), Size::new(0, 0));
    assert_eq!(rect.top_right, Point::new(5, 7));
    assert_eq!(rect.bottom_left, Point::new(5, 7));
    assert_eq!(rect.bottom_right, Point::new(5, 7));
}
