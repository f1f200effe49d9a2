use ws28xx_anim::colors::{
    c_blue, c_green, c_off, c_red, c_white, dark_pattern, rainbow_array, Color,
    FIRST_NON_OFF_COLOR, GAMMA8, NUM_RAINBOWS,
};
use ws28xx_anim::utility::{convert_ms_to_frames, convert_ns_to_frames, Progression};

/// `color_lerp` at the low end of the factor range returns the start color
/// and at the high end the end color, channel by channel.
#[test]
fn color_lerp_boundaries() {
    let a = Color { r: 3, g: 200, b: 77 };
    let b = Color { r: 250, g: 10, b: 128 };
    assert_eq!(Color::color_lerp(0, 0, 10, a, b), a);
    assert_eq!(Color::color_lerp(10, 0, 10, a, b), b);
    assert_eq!(Color::color_lerp(7, 7, 19, a, b), a);
    assert_eq!(Color::color_lerp(19, 7, 19, a, b), b);
}

#[test]
fn color_lerp_midpoint_truncates_per_channel() {
    let a = Color { r: 255, g: 0, b: 10 };
    let b = Color { r: 0, g: 255, b: 11 };
    let mid = Color::color_lerp(5, 0, 10, a, b);
    // falling channels truncate toward the start, rising ones toward zero
    assert_eq!(mid, Color { r: 128, g: 127, b: 10 });
}

#[test]
fn lerp_with_uses_the_progression_position() {
    let mut frames = Progression::new(10);
    frames.set_current(5);
    let from = Color { r: 0, g: 0, b: 0 };
    let to = Color { r: 255, g: 255, b: 255 };
    assert_eq!(from.lerp_with(to, frames), Color { r: 127, g: 127, b: 127 });
}

#[test]
fn color_new_applies_gamma() {
    let c = Color::new(128, 255, 0);
    assert_eq!(c.r, GAMMA8[128]);
    assert_eq!(c.g, 255);
    assert_eq!(c.b, 0);
}

#[test]
fn set_color_passes_channels_through_gamma() {
    let mut c = Color { r: 0, g: 0, b: 0 };
    c.set_color(Color { r: 100, g: 30, b: 255 });
    assert_eq!(c, Color { r: GAMMA8[100], g: GAMMA8[30], b: 255 });
    c.set_rgb(10, 20, 200);
    assert_eq!(c, Color { r: GAMMA8[10], g: GAMMA8[20], b: GAMMA8[200] });
}

#[test]
fn dark_pattern_alternates_half_and_quarter() {
    let p = dark_pattern(Color { r: 255, g: 100, b: 0 });
    let half = Color { r: 127, g: 50, b: 0 };
    let quarter = Color { r: 63, g: 25, b: 0 };
    assert_eq!(p, vec![half, quarter, half, quarter, half, quarter]);
}

#[test]
fn rainbow_array_has_all_rainbows() {
    let arr = rainbow_array();
    assert_eq!(arr.len(), NUM_RAINBOWS);
    assert_eq!(arr[0], vec![c_off()]);
    assert_eq!(arr[1], vec![c_white()]);
    assert_eq!(arr[2], vec![c_red()]);
    assert_eq!(
        arr[17],
        vec![c_red(), c_off(), c_green(), c_off(), c_blue(), c_off()]
    );
}

#[test]
fn frame_conversions_match_the_formula() {
    assert_eq!(convert_ns_to_frames(16_666_667, 60), 1);
    assert_eq!(convert_ns_to_frames(1_000_000_000, 60), 60);
    assert_eq!(convert_ns_to_frames(0, 60), 0);
    assert_eq!(convert_ms_to_frames(500, 60), 30);
    assert_eq!(convert_ms_to_frames(999, 1), 0);
}

#[test]
fn gamma_table_spot_values() {
    assert_eq!(GAMMA8.len(), 256);
    assert_eq!(GAMMA8[0], 0);
    assert_eq!(GAMMA8[255], 255);
    // the first entry that is not completely off
    assert_eq!(GAMMA8[FIRST_NON_OFF_COLOR], 1);
    assert_eq!(GAMMA8[FIRST_NON_OFF_COLOR - 1], 0);
}
