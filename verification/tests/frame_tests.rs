use gamma::frame::pixel_to_ndc_quad;
use gamma::{Frame, LoadAction};

#[test]
fn first_clear_records_one_pass_with_its_color() {
    let mut f = Frame::new();
    assert!(!f.is_cleared());
    let p = f.record_clear(gamma::Color { r: 10, g: 20, b: 30 });
    let p = p.expect("the first clear must record a pass");
    assert!(matches!(p.load, LoadAction::ClearTo(c) if c.r == 10 && c.g == 20 && c.b == 30));
    assert!(p.quad.is_none());
    assert!(f.is_cleared());
    assert_eq!(f.pass_count(), 1);
}

#[test]
fn second_clear_with_another_color_is_ignored() {
    let mut f = Frame::new();
    let first = f.record_clear(gamma::Color { r: 10, g: 20, b: 30 });
    assert!(first.is_some());
    let second = f.record_clear(gamma::Color { r: 200, g: 100, b: 0 });
    assert!(second.is_none());
    assert_eq!(f.pass_count(), 1);
    assert!(f.is_cleared());
}

#[test]
fn draws_record_one_keep_pass_each_in_order() {
    let mut f = Frame::new();
    let q1 = pixel_to_ndc_quad(0, 0, 10, 10, 100, 100);
    let q2 = pixel_to_ndc_quad(50, 50, 10, 10, 100, 100);
    let q3 = pixel_to_ndc_quad(90, 90, 10, 10, 100, 100);
    let p1 = f.record_draw(q1);
    let p2 = f.record_draw(q2);
    let p3 = f.record_draw(q3);
    assert_eq!(f.pass_count(), 3);
    assert!(matches!(p1.load, LoadAction::Keep));
    assert!(matches!(p2.load, LoadAction::Keep));
    assert!(matches!(p3.load, LoadAction::Keep));
    assert_eq!(p1.quad, Some(q1));
    assert_eq!(p2.quad, Some(q2));
    assert_eq!(p3.quad, Some(q3));
    assert!(!f.is_cleared());
}

#[test]
fn draw_before_clear_still_renders() {
    let mut f = Frame::new();
    let q = pixel_to_ndc_quad(5, 5, 1, 1, 64, 64);
    f.record_draw(q);
    let p = f.record_clear(gamma::Color { r: 0, g: 0, b: 0 });
    assert!(p.is_some());
    assert_eq!(f.pass_count(), 2);
}

#[test]
fn top_left_pixel_maps_to_ndc_minus_one_plus_one() {
    let q = pixel_to_ndc_quad(0, 0, 32, 32, 800, 600);
    assert_eq!(q.den_x, 800);
    assert_eq!(q.den_y, 600);
    assert_eq!(q.left_num, -800);
    assert_eq!(q.top_num, 600);
    assert_eq!(q.left_num as f64 / q.den_x as f64, -1.0);
    assert_eq!(q.top_num as f64 / q.den_y as f64, 1.0);
}

#[test]
fn bottom_right_pixel_maps_to_ndc_plus_one_minus_one() {
    let q = pixel_to_ndc_quad(800, 600, 32, 32, 800, 600);
    assert_eq!(q.left_num, 800);
    assert_eq!(q.top_num, -600);
    assert_eq!(q.left_num as f64 / q.den_x as f64, 1.0);
    assert_eq!(q.top_num as f64 / q.den_y as f64, -1.0);
}

#[test]
fn quad_extends_right_and_down_by_scaled_size() {
    let q = pixel_to_ndc_quad(0, 0, 400, 300, 800, 600);
    assert_eq!(q.right_num, 0);
    assert_eq!(q.bottom_num, 0);
    assert_eq!(q.right_num as f64 / q.den_x as f64, 0.0);
    assert_eq!(q.bottom_num as f64 / q.den_y as f64, 0.0);
}
