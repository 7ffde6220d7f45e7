use photon::arith::invert;
use photon::pixel::{Channel, Pixel};

#[test]
fn add_inside_the_range_is_plain_addition() {
    assert_eq!(photon::arith::add(5, 10), 15);
    assert_eq!(photon::arith::add(100, 27), 127);
    assert_eq!(photon::arith::add(200, -50), 150);
    assert_eq!(photon::arith::add(0, 255), 255);
    assert_eq!(photon::arith::add(255, -255), 0);
}

#[test]
fn add_saturates_at_both_ends() {
    assert_eq!(photon::arith::add(250, 10), 255);
    assert_eq!(photon::arith::add(255, 1), 255);
    assert_eq!(photon::arith::add(5, -10), 0);
    assert_eq!(photon::arith::add(0, -1), 0);
    assert_eq!(photon::arith::add(0, i32::MAX), 255);
    assert_eq!(photon::arith::add(255, i32::MAX), 255);
    assert_eq!(photon::arith::add(255, i32::MIN), 0);
    assert_eq!(photon::arith::add(0, i32::MIN), 0);
}

#[test]
fn add_zero_is_identity() {
    for v in 0..=255u8 {
        assert_eq!(photon::arith::add(v, 0), v);
    }
}

#[test]
fn add_is_the_clamped_sum_for_every_value() {
    for v in 0..=255u8 {
        for d in -600..=600i32 {
            let expected: i32 = std::cmp::min(255, std::cmp::max(0, v as i32 + d));
            assert_eq!(photon::arith::add(v, d) as i32, expected);
        }
    }
}

#[test]
fn invert_is_255_minus_value() {
    assert_eq!(invert(0), 255);
    assert_eq!(invert(255), 0);
    assert_eq!(invert(100), 155);
    assert_eq!(invert(128), 127);
    for v in 0..=255u8 {
        assert_eq!(invert(v) as u32 + v as u32, 255);
    }
}

#[test]
fn invert_twice_is_identity() {
    for v in 0..=255u8 {
        assert_eq!(invert(invert(v)), v);
    }
}

#[test]
fn pixel_channel_read() {
    let p = Pixel { r: 1, g: 2, b: 3, a: 4 };
    assert_eq!(p.get(Channel::Red), 1);
    assert_eq!(p.get(Channel::Green), 2);
    assert_eq!(p.get(Channel::Blue), 3);
}

#[test]
fn pixel_channel_write_keeps_the_rest() {
    let p = Pixel { r: 1, g: 2, b: 3, a: 4 };
    assert_eq!(p.set(Channel::Red, 9), Pixel { r: 9, g: 2, b: 3, a: 4 });
    assert_eq!(p.set(Channel::Green, 9), Pixel { r: 1, g: 9, b: 3, a: 4 });
    assert_eq!(p.set(Channel::Blue, 9), Pixel { r: 1, g: 2, b: 9, a: 4 });
}
