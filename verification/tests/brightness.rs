use utu::services::gnome_brightness::{brightness_max, clamp_brightness, next_brightness};

#[test]
fn brightness_scale_is_percent() {
    assert_eq!(brightness_max(), 100);
}

#[test]
fn absolute_brightness_is_clamped() {
    assert_eq!(clamp_brightness(0), 1);
    assert_eq!(clamp_brightness(-50), 1);
    assert_eq!(clamp_brightness(55), 55);
    assert_eq!(clamp_brightness(250), 100);
    assert_eq!(clamp_brightness(clamp_brightness(250)), 100);
}

#[test]
fn relative_brightness_steps_and_clamps() {
    assert_eq!(next_brightness(50, 5), 55);
    assert_eq!(next_brightness(3, -5), 1);
    assert_eq!(next_brightness(98, 5), 100);
    assert_eq!(next_brightness(42, 0), 42);
    assert_eq!(next_brightness(50, i32::MAX), 100);
    assert_eq!(next_brightness(-5, i32::MIN), 1);
}
