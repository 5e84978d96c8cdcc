use rusty_xinput::stick::clamp_deadzone;
use rusty_xinput::stick::isqrt32;
use rusty_xinput::stick::normalize_raw_stick_value_fixed;
use rusty_xinput::stick::STICK_FIXED_ONE;

#[test]
fn isqrt32_exact_values() {
    assert_eq!(isqrt32(0), 0);
    assert_eq!(isqrt32(1), 1);
    assert_eq!(isqrt32(3), 1);
    assert_eq!(isqrt32(4), 2);
    assert_eq!(isqrt32(10201), 101);
    assert_eq!(isqrt32(2147483648), 46340);
    assert_eq!(isqrt32(u32::MAX), 65535);
}

#[test]
fn clamp_deadzone_range() {
    assert_eq!(clamp_deadzone(-1), 0);
    assert_eq!(clamp_deadzone(i16::MIN), 0);
    assert_eq!(clamp_deadzone(0), 0);
    assert_eq!(clamp_deadzone(7849), 7849);
    assert_eq!(clamp_deadzone(32766), 32766);
    assert_eq!(clamp_deadzone(i16::MAX), 32766);
}

#[test]
fn normalize_full_deflection_is_one() {
    assert_eq!(normalize_raw_stick_value_fixed((32767, 0), 0), (65536, 0));
    assert_eq!(normalize_raw_stick_value_fixed((0, -32768), 8689), (0, -65536));
}

#[test]
fn normalize_origin_is_zero() {
    assert_eq!(normalize_raw_stick_value_fixed((0, 0), 0), (0, 0));
    assert_eq!(normalize_raw_stick_value_fixed((0, 0), -5), (0, 0));
    assert_eq!(normalize_raw_stick_value_fixed((0, 0), 32766), (0, 0));
}

#[test]
fn normalize_inside_deadzone_is_zero() {
    // length sqrt(20000) ~ 141.4, inside the deadzone radius 200
    assert_eq!(normalize_raw_stick_value_fixed((100, 100), 200), (0, 0));
    // length exactly on the default left deadzone radius counts as inside
    assert_eq!(normalize_raw_stick_value_fixed((7849, 0), 7849), (0, 0));
}

#[test]
fn normalize_just_outside_deadzone_is_tiny() {
    assert_eq!(normalize_raw_stick_value_fixed((101, 0), 100), (2, 0));
    assert_eq!(normalize_raw_stick_value_fixed((7850, 0), 7849), (2, 0));
}

#[test]
fn normalize_exact_interior_values() {
    assert_eq!(normalize_raw_stick_value_fixed((-32768, -32768), 0), (-46341, -46341));
    assert_eq!(normalize_raw_stick_value_fixed((16384, 0), 0), (32769, 0));
    assert_eq!(normalize_raw_stick_value_fixed((1000, -2000), 500), (1576, -3153));
}

#[test]
fn normalize_raw_stick_value_fixed_extremes() {
    for x in [i16::MIN, i16::MAX] {
        for y in [i16::MIN, i16::MAX] {
            for deadzone in [i16::MIN, 0, i16::MAX / 2, i16::MAX - 1, i16::MAX] {
                let f = normalize_raw_stick_value_fixed((x, y), deadzone);
                assert!(
                    f.0.abs() <= STICK_FIXED_ONE,
                    "XFail: x {}, y {}, dz {} f {:?}",
                    x,
                    y,
                    deadzone,
                    f
                );
                assert!(
                    f.1.abs() <= STICK_FIXED_ONE,
                    "YFail: x {}, y {}, dz {} f {:?}",
                    x,
                    y,
                    deadzone,
                    f
                );
            }
        }
    }
}

#[test]
fn normalize_whole_range_stays_bounded() {
    // a coarse sweep of the raw range, every output within one unit
    let mut v: i32 = -32768;
    while v <= 32767 {
        for deadzone in [-1, 0, 100, 7849, 32766, 32767] {
            let f = normalize_raw_stick_value_fixed((v as i16, (-v) as i16), deadzone);
            assert!(f.0.abs() <= STICK_FIXED_ONE && f.1.abs() <= STICK_FIXED_ONE);
        }
        v += 997;
    }
}
