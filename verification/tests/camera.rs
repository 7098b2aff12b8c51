use render_4d::camera::{Camera, Frac, Pose, DEFAULT_ROTATE_TIME};
use render_4d::rotation::Generator;

#[test]
fn new_camera_is_idle_at_initial_rotation() {
    let cam = Camera::new();
    assert!(cam.rotating.is_none());
    assert_eq!(cam.rotation, Pose::Initial);
    assert_eq!(cam.rotate_time, 1_000_000_000);
}

#[test]
fn trigger_from_idle_succeeds_and_repeat_is_rejected() {
    let mut cam = Camera::new();
    let started = cam.rotate(Generator::R1, 42);
    assert!(started);
    let rec = cam.rotating.expect("animation should be in flight");
    assert_eq!(rec.interpolate, Generator::R1);
    assert_eq!(rec.start_time, 42);
    assert_eq!(rec.last_rotation, Pose::Initial);

    // A second trigger on the same tick is a rejected no-op that leaves the
    // original animation untouched.
    let again = cam.rotate(Generator::R2, 42);
    assert!(!again);
    let rec = cam.rotating.expect("animation should still be in flight");
    assert_eq!(rec.interpolate, Generator::R1);
    assert_eq!(rec.start_time, 42);
}

#[test]
fn tick_mid_animation_commits_the_fraction() {
    let mut cam = Camera::new();
    assert!(cam.rotate(Generator::R2, 0));
    cam.tick(250_000_000);
    assert!(cam.rotating.is_some());
    assert_eq!(
        cam.rotation,
        Pose::Swept {
            gen: Generator::R2,
            frac: Frac { num: 250_000_000, den: DEFAULT_ROTATE_TIME },
        },
    );
}

#[test]
fn tick_at_or_past_duration_completes_exactly() {
    let mut cam = Camera::new();
    assert!(cam.rotate(Generator::R1Inv, 100));
    cam.tick(100 + DEFAULT_ROTATE_TIME);
    assert!(cam.rotating.is_none());
    assert_eq!(
        cam.rotation,
        Pose::Swept { gen: Generator::R1Inv, frac: Frac { num: 1, den: 1 } },
    );
    match cam.rotation {
        Pose::Swept { frac, .. } => assert!(frac.is_one()),
        Pose::Initial => panic!("expected a swept pose"),
    }
}

#[test]
fn half_way_then_past_the_end() {
    // Start idle at the initial rotation, trigger the first forward
    // generator at t = 0 with a one-second duration; half a second in the
    // camera is animating at exactly one half; at 1.2 s it is idle at the
    // full quarter turn.
    let mut cam = Camera::new();
    assert_eq!(cam.rotation, Pose::Initial);
    assert!(cam.rotate(Generator::R1, 0));

    cam.tick(500_000_000);
    assert!(cam.rotating.is_some());
    assert_eq!(
        cam.rotation,
        Pose::Swept {
            gen: Generator::R1,
            frac: Frac { num: 500_000_000, den: 1_000_000_000 },
        },
    );

    cam.tick(1_200_000_000);
    assert!(cam.rotating.is_none());
    assert_eq!(
        cam.rotation,
        Pose::Swept { gen: Generator::R1, frac: Frac { num: 1, den: 1 } },
    );
}

#[test]
fn zero_duration_completes_immediately() {
    let mut cam = Camera::new();
    cam.rotate_time = 0;
    assert!(cam.rotate(Generator::R2Inv, 7));
    cam.tick(7);
    assert!(cam.rotating.is_none());
    assert_eq!(
        cam.rotation,
        Pose::Swept { gen: Generator::R2Inv, frac: Frac { num: 1, den: 1 } },
    );
}

#[test]
fn clock_before_start_clamps_to_zero_progress() {
    let mut cam = Camera::new();
    assert!(cam.rotate(Generator::R1, 1_000));
    cam.tick(500);
    assert!(cam.rotating.is_some());
    assert_eq!(
        cam.rotation,
        Pose::Swept { gen: Generator::R1, frac: Frac { num: 0, den: DEFAULT_ROTATE_TIME } },
    );
}

#[test]
fn tick_on_idle_camera_changes_nothing() {
    let mut cam = Camera::new();
    let before = cam;
    cam.tick(123_456);
    assert_eq!(cam, before);
}
