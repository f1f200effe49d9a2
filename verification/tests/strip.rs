use ws28xx_anim::animations::{Animation, AnimationParameters, Direction};
use ws28xx_anim::background::{Mode as BgMode, Parameters as BgParameters};
use ws28xx_anim::colors::{c_blue, c_green, c_red, Color, GAMMA8};
use ws28xx_anim::default_animations::{fg_off, trigger_off};
use ws28xx_anim::get_total_num_leds;
use ws28xx_anim::leds::ws28xx::{
    bytes_as_bits, high_periods_for_bit, ColorOrder, LogicalStrip, PhysicalStrip, StripTimings,
};
use ws28xx_anim::lighting_controller::LightingController;
use ws28xx_anim::utility::default_translation_array;

fn strip(led_count: usize, reversed: bool, color_order: ColorOrder) -> PhysicalStrip {
    PhysicalStrip { led_count, reversed, color_order, strip_timings: StripTimings::ws2812_adafruit() }
}

fn logical_strip(strips: Vec<PhysicalStrip>) -> LogicalStrip {
    let total = get_total_num_leds(strips.as_slice());
    let mut colors: Vec<Color> = Vec::new();
    for _ in 0..total {
        colors.push(Color::default());
    }
    let mut bytes: Vec<u8> = Vec::new();
    for _ in 0..3 * total {
        bytes.push(0);
    }
    LogicalStrip::new(bytes, colors, strips)
}

/// Encoding a byte through the bit adapter yields its bits in
/// most-significant-first order.
#[test]
fn byte_bits_come_out_most_significant_first() {
    let bits = bytes_as_bits(&[0b1011_0000], 0, 1);
    assert_eq!(bits, vec![true, false, true, true, false, false, false, false]);
}

/// The bit order within a byte does not depend on the strip's channel order:
/// channel order only decides which byte holds which channel.
#[test]
fn bit_order_is_independent_of_channel_order() {
    let color = Color { r: 0b1011_0000, g: 0, b: 0 };
    for (order, red_byte) in [(ColorOrder::RGB, 0usize), (ColorOrder::GRB, 1), (ColorOrder::BGR, 2)]
    {
        let mut ls = logical_strip(vec![strip(1, false, order)]);
        ls.set_color_at_index(0, color);
        let bits = ls.bits_for_strip(0);
        assert_eq!(bits.len(), 24);
        let red_bits = &bits[8 * red_byte..8 * red_byte + 8];
        assert_eq!(red_bits, &[true, false, true, true, false, false, false, false]);
    }
}

/// A write stores the gamma-corrected color in the color buffer and the raw
/// channel bytes, channel-reordered, in the wire buffer.
#[test]
fn set_color_updates_both_buffers() {
    let mut ls = logical_strip(vec![strip(2, false, ColorOrder::GRB)]);
    let color = Color { r: 10, g: 20, b: 30 };
    ls.set_color_at_index(1, color);
    assert_eq!(
        ls.get_color_at_index(1),
        Color { r: GAMMA8[10], g: GAMMA8[20], b: GAMMA8[30] }
    );
    // GRB order: green first, then red, then blue
    assert_eq!(&ls.byte_buffer[3..6], &[20, 10, 30]);
    // the other LED is untouched
    assert_eq!(&ls.byte_buffer[0..3], &[0, 0, 0]);
}

/// On a reversed strip the wire bytes are laid out back to front relative to
/// the logical index order.
#[test]
fn reversed_strip_stores_bytes_back_to_front() {
    // two strips: two plain LEDs, then two reversed ones
    let mut ls = logical_strip(vec![
        strip(2, false, ColorOrder::RGB),
        strip(2, true, ColorOrder::RGB),
    ]);
    // logical index two is the reversed strip's first LED, which lives at
    // the far end of its byte range: LED position three
    ls.set_color_at_index(2, Color { r: 1, g: 2, b: 3 });
    assert_eq!(&ls.byte_buffer[9..12], &[1, 2, 3]);
    assert_eq!(&ls.byte_buffer[6..9], &[0, 0, 0]);
    // and logical index three lands on LED position two
    ls.set_color_at_index(3, Color { r: 4, g: 5, b: 6 });
    assert_eq!(&ls.byte_buffer[6..9], &[4, 5, 6]);
}

#[test]
fn solid_fill_sets_every_color_and_leaves_bytes() {
    let mut ls = logical_strip(vec![strip(3, false, ColorOrder::RGB)]);
    ls.set_strip_to_solid_color(Color { r: 255, g: 128, b: 0 });
    for i in 0..3 {
        assert_eq!(
            ls.get_color_at_index(i),
            Color { r: 255, g: GAMMA8[128], b: 0 }
        );
    }
    assert_eq!(&ls.byte_buffer[..], &[0u8; 9]);
}

#[test]
fn strip_byte_ranges_partition_the_buffer() {
    let ls = logical_strip(vec![
        strip(2, false, ColorOrder::RGB),
        strip(3, false, ColorOrder::GRB),
    ]);
    assert_eq!(ls.strip_byte_range(0), (0, 6));
    assert_eq!(ls.strip_byte_range(1), (6, 15));
}

#[test]
fn total_led_count_sums_the_strips() {
    let strips = vec![strip(2, false, ColorOrder::RGB), strip(3, true, ColorOrder::BRG)];
    assert_eq!(get_total_num_leds(strips.as_slice()), 5);
    assert_eq!(get_total_num_leds(&[]), 0);
}

#[test]
fn translation_array_counts_up_from_start() {
    assert_eq!(default_translation_array(5, 10), vec![10, 11, 12, 13, 14]);
    assert_eq!(default_translation_array(0, 3), Vec::<usize>::new());
}

#[test]
fn one_bits_hold_the_line_high_twice_as_long() {
    assert_eq!(high_periods_for_bit(true), 2);
    assert_eq!(high_periods_for_bit(false), 1);
    let t = StripTimings::ws2811_adafruit();
    assert_eq!(t.full_cycle, 2500);
}

fn solid_red_animation(n: usize, start_at: usize) -> Animation {
    let params = AnimationParameters {
        bg: BgParameters {
            mode: BgMode::Solid,
            rainbow: vec![c_red(), c_green(), c_blue()],
            direction: Direction::Stopped,
            is_rainbow_forward: true,
            duration_ns: 0,
            subdivisions: 1,
        },
        fg: fg_off(),
        trigger: trigger_off(),
    };
    Animation::new(&params, default_translation_array(n, start_at), 60, 3)
}

/// A four-LED segment with a solid red background and nothing else produces
/// all four LEDs red on every update, unchanged across frames.
#[test]
fn solid_red_segment_stays_red_end_to_end() {
    let ls = logical_strip(vec![strip(4, false, ColorOrder::RGB)]);
    let animations = vec![solid_red_animation(4, 0)];
    let mut lc = LightingController::new(ls, animations, 60);
    for _ in 0..3 {
        let rendered = lc.update(true);
        assert!(rendered);
        for i in 0..4 {
            // red survives gamma correction unchanged
            assert_eq!(lc.logical_strip.get_color_at_index(i), c_red());
        }
        assert_eq!(&lc.logical_strip.byte_buffer[0..3], &[255, 0, 0]);
    }
}

/// When the frame timer has not fired, an update pass does nothing.
#[test]
fn controller_skips_work_until_the_timer_fires() {
    let ls = logical_strip(vec![strip(4, false, ColorOrder::RGB)]);
    let animations = vec![solid_red_animation(4, 0)];
    let mut lc = LightingController::new(ls, animations, 60);
    let rendered = lc.update(false);
    assert!(!rendered);
    for i in 0..4 {
        assert_eq!(lc.logical_strip.get_color_at_index(i), Color::default());
    }
    assert_eq!(lc.frame_period_ns(), 16_666_666);
}

/// Two animations write through their translation arrays into disjoint
/// parts of one strip.
#[test]
fn translation_arrays_address_the_shared_buffer() {
    let ls = logical_strip(vec![strip(4, false, ColorOrder::RGB)]);
    let animations = vec![solid_red_animation(2, 0), solid_red_animation(2, 2)];
    let mut lc = LightingController::new(ls, animations, 60);
    lc.update(true);
    for i in 0..4 {
        assert_eq!(lc.logical_strip.get_color_at_index(i), c_red());
    }
    // retargeting the second animation's trigger flag flips its color on the
    // next frame, and only in its own half
    lc.trigger(
        1,
        &ws28xx_anim::trigger::Parameters {
            mode: ws28xx_anim::trigger::Mode::Background,
            direction: Direction::Stopped,
            fade_in_time_ns: 0,
            fade_out_time_ns: 0,
            starting_offset: 0,
            pixels_per_pixel_group: 1,
        },
    );
    lc.update(true);
    assert_eq!(lc.logical_strip.get_color_at_index(0), c_red());
    assert_eq!(lc.logical_strip.get_color_at_index(1), c_red());
    assert_eq!(lc.logical_strip.get_color_at_index(2), c_green());
    assert_eq!(lc.logical_strip.get_color_at_index(3), c_green());
}
