use neo_button::ws2812::{self, Pixel, Strip};

fn pixel(r: u8, g: u8, b: u8) -> Pixel {
    Pixel { r, g, b }
}

fn buffer_of(strip: &Strip) -> Vec<Pixel> {
    let mut v = Vec::new();
    let mut i = 0;
    while i < strip.len() {
        v.push(strip.get(i));
        i += 1;
    }
    v
}

#[test]
fn black_is_all_zero() {
    assert_eq!(Pixel::black(), pixel(0, 0, 0));
}

#[test]
fn scale_example_truncates() {
    let scaled = ws2812::scale_color(pixel(100, 200, 50), 128);
    assert_eq!(scaled, pixel(50, 100, 25));
}

#[test]
fn scale_full_intensity_is_identity() {
    assert_eq!(ws2812::scale_color(pixel(255, 0, 0), 255), pixel(255, 0, 0));
    assert_eq!(ws2812::scale_color(pixel(254, 1, 77), 255), pixel(254, 1, 77));
    assert_eq!(ws2812::scale_color(pixel(0, 0, 0), 255), pixel(0, 0, 0));
}

#[test]
fn scale_zero_intensity_is_black() {
    assert_eq!(ws2812::scale_color(pixel(255, 255, 255), 0), pixel(0, 0, 0));
    assert_eq!(ws2812::scale_color(pixel(1, 2, 3), 0), pixel(0, 0, 0));
}

#[test]
fn init_starts_all_black() {
    for n in [0usize, 1, 64] {
        let strip = ws2812::init(n);
        assert_eq!(strip.len(), n);
        for i in 0..n {
            assert_eq!(strip.get(i), pixel(0, 0, 0));
        }
    }
}

#[test]
fn turn_on_in_range_lights_only_the_target() {
    let mut strip = ws2812::init(5);
    strip.turn_on_led(2, pixel(10, 20, 30), 255);
    assert_eq!(strip.len(), 5);
    for i in 0..5 {
        if i == 2 {
            assert_eq!(strip.get(i), pixel(10, 20, 30));
        } else {
            assert_eq!(strip.get(i), pixel(0, 0, 0));
        }
    }
}

#[test]
fn turn_on_starts_from_black_each_call() {
    let mut strip = ws2812::init(4);
    strip.turn_on_led(0, pixel(9, 9, 9), 255);
    strip.turn_on_led(3, pixel(7, 7, 7), 255);
    assert_eq!(strip.get(0), pixel(0, 0, 0));
    assert_eq!(strip.get(3), pixel(7, 7, 7));
}

#[test]
fn turn_on_scales_the_stored_color() {
    let mut strip = ws2812::init(1);
    strip.turn_on_led(0, pixel(100, 200, 50), 128);
    assert_eq!(strip.get(0), pixel(50, 100, 25));
}

#[test]
fn turn_on_out_of_range_clears_the_strip() {
    let mut strip = ws2812::init(4);
    strip.turn_on_led(1, pixel(8, 8, 8), 255);
    strip.turn_on_led(4, pixel(200, 200, 200), 255);
    assert_eq!(strip.len(), 4);
    for i in 0..4 {
        assert_eq!(strip.get(i), pixel(0, 0, 0));
    }
}

#[test]
fn turn_off_all_clears_every_pixel() {
    let mut strip = ws2812::init(3);
    strip.turn_on_led(1, pixel(255, 255, 255), 255);
    strip.turn_off_all_leds();
    assert_eq!(strip.len(), 3);
    for i in 0..3 {
        assert_eq!(strip.get(i), pixel(0, 0, 0));
    }
}

#[test]
fn turn_off_all_twice_equals_once() {
    let mut strip = ws2812::init(6);
    strip.turn_on_led(5, pixel(1, 2, 3), 255);
    strip.turn_off_all_leds();
    let after_once = buffer_of(&strip);
    strip.turn_off_all_leds();
    let after_twice = buffer_of(&strip);
    assert_eq!(after_once, after_twice);
}

#[test]
fn turn_off_single_preserves_the_others() {
    let mut strip = ws2812::init(3);
    let mut state = vec![pixel(1, 1, 1), pixel(2, 2, 2), pixel(3, 3, 3)];
    strip.turn_off_single_led(&mut state, 1);
    assert_eq!(state, vec![pixel(1, 1, 1), pixel(0, 0, 0), pixel(3, 3, 3)]);
    assert_eq!(buffer_of(&strip), state);
}

#[test]
fn turn_off_single_out_of_range_still_transmits() {
    let mut strip = ws2812::init(2);
    let mut state = vec![pixel(4, 4, 4), pixel(5, 5, 5)];
    strip.turn_off_single_led(&mut state, 2);
    assert_eq!(state, vec![pixel(4, 4, 4), pixel(5, 5, 5)]);
    assert_eq!(buffer_of(&strip), state);
}
