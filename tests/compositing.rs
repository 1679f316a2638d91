use chadland::cache::Bounds;
use chadland::compositing::{plan_frame, Rect, Transform};

#[test]
fn frame_draws_over_the_ui_bounds_and_damages_them() {
    let plan = plan_frame(800, 600).unwrap();
    let rect = Rect { x: 0, y: 0, width: 800, height: 600 };
    assert_eq!(plan.bounds, Bounds { width: 800, height: 600 });
    assert_eq!(plan.destination, rect);
    assert_eq!(plan.transform, Transform::Identity);
    assert_eq!(plan.damage, vec![rect]);
}

#[test]
fn empty_window_draws_nothing() {
    assert!(plan_frame(0, 600).is_none());
    assert!(plan_frame(800, -1).is_none());
}
