use tileworld::camera::Camera;

#[test]
fn visible_region_is_centered_on_the_actor() {
    let cam = Camera::new(640, 640);
    let r = cam.visible_region(20, 20);
    assert_eq!(r.w, 40);
    assert_eq!(r.h, 40);
    assert_eq!(r.x, 0);
    assert_eq!(r.y, 0);
}

#[test]
fn visible_region_may_leave_the_world() {
    let cam = Camera::new(64, 64);
    let r = cam.visible_region(0, 0);
    assert_eq!((r.x, r.y), (-2, -2));
    assert_eq!((r.w, r.h), (4, 4));
}

#[test]
fn world_to_screen_translation_step() {
    let cam = Camera::new(640, 640);
    for (gx, gy) in [(0, 0), (5, 7), (-3, 2)] {
        let base = cam.world_to_screen(gx, gy, 20, 20);
        let right = cam.world_to_screen(gx + 1, gy, 20, 20);
        let down = cam.world_to_screen(gx, gy + 1, 20, 20);
        assert_eq!(right.0 - base.0, 16);
        assert_eq!(right.1 - base.1, 0);
        assert_eq!(down.0 - base.0, 0);
        assert_eq!(down.1 - base.1, 16);
    }
}

#[test]
fn world_to_screen_is_deterministic() {
    let cam = Camera::new(1200, 720);
    let a = cam.world_to_screen(9, 4, 12, 12);
    let b = cam.world_to_screen(9, 4, 12, 12);
    assert_eq!(a, b);
}

#[test]
fn world_to_screen_exact_values() {
    let cam = Camera::new(64, 64);
    // Window of 4x4 tiles centred on the actor at (0, 0): origin (-2, -2).
    assert_eq!(cam.world_to_screen(0, 0, 0, 0), (32, 32));
    assert_eq!(cam.world_to_screen(-2, -2, 0, 0), (0, 0));
    assert_eq!(cam.world_to_screen(1, -1, 0, 0), (48, 16));
}
