use otp_scanner::rotation::{resolve_rotation, ImageRotation};

#[test]
fn sensor_ahead_by_a_quarter_turn() {
    assert_eq!(resolve_rotation(90, 0), ImageRotation::Deg90);
}

#[test]
fn display_turned_three_quarters() {
    assert_eq!(resolve_rotation(0, 270), ImageRotation::Deg90);
}

#[test]
fn every_supported_pair_falls_on_its_difference() {
    let angles = [0, 90, 180, 270];
    let buckets = [
        ImageRotation::Deg0,
        ImageRotation::Deg90,
        ImageRotation::Deg180,
        ImageRotation::Deg270,
    ];
    for (i, sensor) in angles.iter().enumerate() {
        for (j, device) in angles.iter().enumerate() {
            let expected = buckets[(4 + i - j) % 4];
            assert_eq!(resolve_rotation(*sensor, *device), expected);
        }
    }
}

#[test]
fn lower_limits_belong_to_the_bucket_above() {
    assert_eq!(ImageRotation::from_deg(44), ImageRotation::Deg0);
    assert_eq!(ImageRotation::from_deg(45), ImageRotation::Deg90);
    assert_eq!(ImageRotation::from_deg(134), ImageRotation::Deg90);
    assert_eq!(ImageRotation::from_deg(135), ImageRotation::Deg180);
    assert_eq!(ImageRotation::from_deg(224), ImageRotation::Deg180);
    assert_eq!(ImageRotation::from_deg(225), ImageRotation::Deg270);
    assert_eq!(ImageRotation::from_deg(314), ImageRotation::Deg270);
    assert_eq!(ImageRotation::from_deg(315), ImageRotation::Deg0);
    assert_eq!(ImageRotation::from_deg(359), ImageRotation::Deg0);
    assert_eq!(ImageRotation::from_deg(0), ImageRotation::Deg0);
}

#[test]
fn angles_outside_a_turn_fall_to_zero() {
    assert_eq!(ImageRotation::from_deg(-90), ImageRotation::Deg0);
    assert_eq!(ImageRotation::from_deg(360), ImageRotation::Deg0);
    assert_eq!(ImageRotation::from_deg(450), ImageRotation::Deg0);
    assert_eq!(ImageRotation::from_deg(i32::MIN), ImageRotation::Deg0);
    assert_eq!(ImageRotation::from_deg(i32::MAX), ImageRotation::Deg0);
}

#[test]
fn rotation_depends_on_the_difference_only() {
    assert_eq!(resolve_rotation(100, 10), resolve_rotation(90, 0));
    assert_eq!(resolve_rotation(450, 0), resolve_rotation(90, 0));
    assert_eq!(resolve_rotation(90, 360), resolve_rotation(90, 0));
    assert_eq!(resolve_rotation(-270, 0), ImageRotation::Deg90);
    assert_eq!(resolve_rotation(0, -90), ImageRotation::Deg90);
    assert_eq!(resolve_rotation(0, 90), ImageRotation::Deg270);
    assert_eq!(resolve_rotation(-1000, 0), ImageRotation::Deg90);
}

#[test]
fn extreme_angles_do_not_overflow() {
    assert_eq!(resolve_rotation(i32::MAX, i32::MIN), ImageRotation::Deg270);
    assert_eq!(resolve_rotation(i32::MIN, i32::MAX), ImageRotation::Deg90);
    assert_eq!(resolve_rotation(i32::MIN, i32::MIN), ImageRotation::Deg0);
}

#[test]
fn quarter_turns_exchange_width_and_height() {
    assert_eq!(ImageRotation::Deg0.rotated_size(640, 480), (640, 480));
    assert_eq!(ImageRotation::Deg90.rotated_size(640, 480), (480, 640));
    assert_eq!(ImageRotation::Deg180.rotated_size(640, 480), (640, 480));
    assert_eq!(ImageRotation::Deg270.rotated_size(640, 480), (480, 640));
}
