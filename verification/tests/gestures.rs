use quadview::view_state::{ViewState, Zoom, MAG_MAX, MAG_ONE, PAN_MAX};
use quadview::frac::Frac;

#[test]
fn pan_accumulates_between_anchors() {
    let mut v = ViewState::new();
    assert_eq!(v.pos, (0, 0));
    assert_eq!(v.anchor, None);
    // First call anchors without moving.
    v.set_position((10, 10));
    assert_eq!(v.pos, (0, 0));
    assert_eq!(v.anchor, Some((10, 10)));
    // Second call adds the delta and refreshes the anchor.
    v.set_position((15, 12));
    assert_eq!(v.pos, (5, 2));
    assert_eq!(v.anchor, Some((15, 12)));
    // After clear_anchor the next call re-anchors with no jump.
    v.clear_anchor();
    assert_eq!(v.anchor, None);
    v.set_position((100, 100));
    assert_eq!(v.pos, (5, 2));
    assert_eq!(v.anchor, Some((100, 100)));
}

#[test]
fn zoom_factor_clamps_at_half() {
    // delta.y = 1000 is clamped to 128, so the factor is exactly 1/2.
    let mut v = ViewState::new();
    v.set_anchor((0, 0));
    v.set_zoom((0, 1000));
    assert_eq!(v.zoom, Zoom::Fit(MAG_ONE / 2));
    // A far larger delta gives the same factor.
    let mut w = ViewState::new();
    w.set_anchor((0, 0));
    w.set_zoom((0, 1_000_000));
    assert_eq!(w.zoom, Zoom::Fit(MAG_ONE / 2));
}

#[test]
fn zoom_factor_clamps_at_three_halves() {
    // Dragging up magnifies; delta.y = -1000 is clamped to -128, so the
    // factor is exactly 3/2.
    let mut v = ViewState::new();
    v.set_anchor((0, 0));
    v.set_zoom((0, -1000));
    assert_eq!(v.zoom, Zoom::Fit(MAG_ONE * 3 / 2));
}

#[test]
fn zoom_first_call_anchors_without_change() {
    let mut v = ViewState::new();
    v.set_zoom((5, 7));
    assert_eq!(v.zoom, Zoom::Fit(MAG_ONE));
    assert_eq!(v.anchor, Some((5, 7)));
    assert_eq!(v.pos, (0, 0));
}

#[test]
fn zoom_preserves_tag_and_pan() {
    let mut v = ViewState::new();
    v.set_zoom_mode(Zoom::Pixel(MAG_ONE));
    v.set_anchor((0, 0));
    v.set_position((3, 4));
    v.set_zoom((3, 4 + 256));
    assert!(matches!(v.zoom, Zoom::Pixel(_)));
    // Pan untouched by a zoom gesture.
    assert_eq!(v.pos, (3, 4));
}

#[test]
fn magnitude_clamps_to_positive_minimum() {
    // A shrink step at the smallest magnitude stays at the minimum
    // instead of reaching zero.
    let mut v = ViewState::new();
    v.set_zoom_mode(Zoom::Pixel(1));
    v.set_anchor((0, 0));
    v.set_zoom((0, 1000));
    assert_eq!(v.zoom, Zoom::Pixel(1));
}

#[test]
fn magnitude_clamps_to_maximum() {
    let mut v = ViewState::new();
    v.set_zoom_mode(Zoom::Pixel(MAG_MAX));
    v.set_anchor((0, 0));
    v.set_zoom((0, -1000));
    assert_eq!(v.zoom, Zoom::Pixel(MAG_MAX));
}

#[test]
fn magnitude_product_rounds_down() {
    // 255/256 of a magnitude of 255 is 254.00...: the fixed-point
    // product rounds down to 254.
    let mut v = ViewState::new();
    v.set_zoom_mode(Zoom::Pixel(255));
    v.update_magnification(Frac::new(255, 256));
    assert_eq!(v.zoom, Zoom::Pixel(254));
}

#[test]
fn update_magnification_is_exact_when_divisible() {
    let mut v = ViewState::new();
    v.update_magnification(Frac::new(1, 2));
    assert_eq!(v.zoom, Zoom::Fit(MAG_ONE / 2));
    v.update_magnification(Frac::new(3, 1));
    assert_eq!(v.zoom, Zoom::Fit(MAG_ONE * 3 / 2));
}

#[test]
fn pan_clamps_at_limit() {
    let mut v = ViewState::new();
    v.set_anchor((-16_000_000, 0));
    v.set_position((16_000_000, 0));
    // The 32M delta exceeds PAN_MAX and is clamped there.
    assert_eq!(v.pos, (PAN_MAX, 0));
}

#[test]
fn displacement_reports_pan() {
    let mut v = ViewState::new();
    v.set_anchor((0, 0));
    v.set_position((-7, 9));
    assert_eq!(v.get_displacement(), (-7, 9));
}
