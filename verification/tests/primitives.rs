use image::{DynamicImage, GenericImage, GenericImageView, Rgba};
use photon::channels::{inc_blue_channel, inc_channel, inc_two_channels};
use photon::filters::{lix, neue, ryo};
use photon::monochrome::monochroma;
use photon::pixel::Channel;
use photon::tint;

fn filled(width: u32, height: u32, data: [u8; 4]) -> DynamicImage {
    let mut img = DynamicImage::new_rgba8(width, height);
    for x in 0..width {
        for y in 0..height {
            img.put_pixel(x, y, Rgba { data });
        }
    }
    img
}

fn varied(width: u32, height: u32) -> DynamicImage {
    let mut img = DynamicImage::new_rgba8(width, height);
    for x in 0..width {
        for y in 0..height {
            let r = (x * 37 + y * 11) as u8;
            let g = (x * 5 + y * 101 + 3) as u8;
            let b = (x * 83 + y * 7 + 250) as u8;
            let a = (x + y * 2) as u8;
            img.put_pixel(x, y, Rgba { data: [r, g, b, a] });
        }
    }
    img
}

fn every_pixel_is(img: &DynamicImage, data: [u8; 4]) -> bool {
    let (width, height) = img.dimensions();
    for x in 0..width {
        for y in 0..height {
            if img.get_pixel(x, y) != (Rgba { data }) {
                return false;
            }
        }
    }
    true
}

#[test]
fn black_two_by_two_through_dual_increment() {
    let out = inc_two_channels(filled(2, 2, [0, 0, 0, 255]), Channel::Red, 10, Channel::Blue, 50);
    assert_eq!(out.dimensions(), (2, 2));
    assert!(every_pixel_is(&out, [10, 0, 50, 255]));
}

#[test]
fn black_two_by_two_rgb_buffer_through_dual_increment() {
    let out = inc_two_channels(DynamicImage::new_rgb8(2, 2), Channel::Red, 10, Channel::Blue, 50);
    assert_eq!(out.dimensions(), (2, 2));
    assert_eq!(out.raw_pixels(), vec![10, 0, 50, 10, 0, 50, 10, 0, 50, 10, 0, 50]);
}

#[test]
fn dual_increment_leaves_the_other_channel_and_alpha() {
    let before = varied(7, 5);
    let out = inc_two_channels(varied(7, 5), Channel::Green, 9, Channel::Blue, 173);
    for x in 0..7u32 {
        for y in 0..5u32 {
            let was = before.get_pixel(x, y);
            let is = out.get_pixel(x, y);
            assert_eq!(is.data[0], was.data[0]);
            assert_eq!(is.data[3], was.data[3]);
            assert_eq!(is.data[1], photon::arith::add(was.data[1], 9));
            assert_eq!(is.data[2], photon::arith::add(was.data[2], 173));
        }
    }
}

#[test]
fn dual_increment_saturates() {
    let out = inc_two_channels(filled(1, 1, [200, 250, 100, 7]), Channel::Green, 9, Channel::Blue, 173);
    assert!(every_pixel_is(&out, [200, 255, 255, 7]));
    let down = inc_two_channels(filled(1, 1, [200, 250, 100, 7]), Channel::Red, -201, Channel::Green, -250);
    assert!(every_pixel_is(&down, [0, 0, 100, 7]));
}

#[test]
fn single_increment_touches_one_channel() {
    let out = inc_channel(filled(3, 2, [10, 20, 30, 40]), Channel::Red, 100);
    assert!(every_pixel_is(&out, [110, 20, 30, 40]));
    let blue = inc_blue_channel(filled(3, 2, [10, 20, 30, 40]), 131);
    assert!(every_pixel_is(&blue, [10, 20, 161, 40]));
    let top = inc_blue_channel(filled(1, 1, [10, 20, 130, 40]), 131);
    assert!(every_pixel_is(&top, [10, 20, 255, 40]));
}

#[test]
fn monochroma_on_a_gray_buffer_keeps_the_value_before_offsets() {
    for k in [0u8, 1, 7, 100, 254, 255] {
        let plain = monochroma(filled(2, 3, [k, k, k, 9]), 0, 0, 0);
        assert!(every_pixel_is(&plain, [k, k, k, 9]));
        let cast = monochroma(filled(2, 3, [k, k, k, 9]), 5, 40, 20);
        let expected = [
            photon::arith::add(k, 5),
            photon::arith::add(k, 40),
            photon::arith::add(k, 20),
            9,
        ];
        assert!(every_pixel_is(&cast, expected));
    }
}

#[test]
fn monochroma_truncates_the_average() {
    let out = monochroma(filled(2, 2, [1, 1, 2, 255]), 0, 0, 0);
    assert!(every_pixel_is(&out, [1, 1, 1, 255]));
    let other = monochroma(filled(2, 2, [255, 255, 254, 255]), 0, 0, 0);
    assert!(every_pixel_is(&other, [254, 254, 254, 255]));
    let cast = monochroma(filled(2, 2, [10, 20, 30, 255]), 5, 40, 20);
    assert!(every_pixel_is(&cast, [25, 60, 40, 255]));
}

#[test]
fn tint_shifts_all_channels() {
    let out = tint(filled(2, 2, [10, 20, 30, 40]), 120, 70, 13);
    assert!(every_pixel_is(&out, [130, 90, 43, 40]));
    let top = tint(filled(2, 2, [200, 200, 200, 40]), 80, 40, 120);
    assert!(every_pixel_is(&top, [255, 240, 255, 40]));
}

#[test]
fn neue_leaves_full_blue() {
    let out = neue(filled(2, 2, [1, 2, 255, 4]));
    assert!(every_pixel_is(&out, [1, 2, 255, 4]));
}

#[test]
fn neue_inverts_blue_below_255() {
    let out = neue(filled(2, 2, [1, 2, 100, 4]));
    assert!(every_pixel_is(&out, [1, 2, 155, 4]));
    let zero = neue(filled(2, 2, [1, 2, 0, 4]));
    assert!(every_pixel_is(&zero, [1, 2, 255, 4]));
}

#[test]
fn lix_on_zero_zero_hundred() {
    let out = lix(filled(1, 1, [0, 0, 100, 255]));
    assert!(every_pixel_is(&out, [255, 255, 100, 255]));
}

#[test]
fn lix_inverts_red_and_green_everywhere() {
    let before = varied(4, 6);
    let out = lix(varied(4, 6));
    for x in 0..4u32 {
        for y in 0..6u32 {
            let was = before.get_pixel(x, y);
            let is = out.get_pixel(x, y);
            assert_eq!(is.data, [255 - was.data[0], 255 - was.data[1], was.data[2], was.data[3]]);
        }
    }
}

#[test]
fn ryo_is_guarded_by_blue() {
    let out = ryo(filled(2, 2, [10, 20, 30, 40]));
    assert!(every_pixel_is(&out, [245, 20, 225, 40]));
    let kept = ryo(filled(2, 2, [10, 20, 255, 40]));
    assert!(every_pixel_is(&kept, [10, 20, 255, 40]));
}

#[test]
fn every_primitive_keeps_the_dimensions() {
    for (w, h) in [(0u32, 0u32), (1, 1), (3, 2), (2, 5), (0, 4), (4, 0)] {
        assert_eq!(inc_channel(varied(w, h), Channel::Red, 1).dimensions(), (w, h));
        assert_eq!(inc_blue_channel(varied(w, h), 1).dimensions(), (w, h));
        assert_eq!(
            inc_two_channels(varied(w, h), Channel::Red, 1, Channel::Green, 2).dimensions(),
            (w, h)
        );
        assert_eq!(monochroma(varied(w, h), 1, 2, 3).dimensions(), (w, h));
        assert_eq!(tint(varied(w, h), 1, 2, 3).dimensions(), (w, h));
        assert_eq!(neue(varied(w, h)).dimensions(), (w, h));
        assert_eq!(lix(varied(w, h)).dimensions(), (w, h));
        assert_eq!(ryo(varied(w, h)).dimensions(), (w, h));
    }
}

#[test]
fn every_primitive_keeps_the_colour_type() {
    assert_eq!(lix(DynamicImage::new_rgb8(2, 2)).color(), image::ColorType::RGB(8));
    assert_eq!(neue(DynamicImage::new_luma8(2, 2)).color(), image::ColorType::Gray(8));
    assert_eq!(tint(DynamicImage::new_bgra8(2, 2), 1, 2, 3).color(), image::ColorType::BGRA(8));
    assert_eq!(monochroma(DynamicImage::new_rgba8(2, 2), 1, 2, 3).color(), image::ColorType::RGBA(8));
}

#[test]
fn lix_on_a_gray_buffer_stores_the_luminance_of_the_result() {
    let mut img = DynamicImage::new_luma8(1, 1);
    img.put_pixel(0, 0, Rgba { data: [40, 40, 40, 255] });
    let out = lix(img);
    let luma: u8 = image::Pixel::to_luma(&Rgba { data: [215u8, 215, 40, 255] }).data[0];
    assert_eq!(out.get_pixel(0, 0), Rgba { data: [luma, luma, luma, 255] });
}
