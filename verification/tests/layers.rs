use ws28xx_anim::animations::Direction;
use ws28xx_anim::background::{Background, Mode as BgMode, Parameters as BgParameters};
use ws28xx_anim::colors::{c_blue, c_green, c_red, Color};
use ws28xx_anim::foreground::{Foreground, Mode as FgMode, Parameters as FgParameters};
use ws28xx_anim::utility::{shift_offset, Progression, StatefulRainbow};

fn off_segment(n: usize) -> Vec<Color> {
    let mut v = Vec::new();
    for _ in 0..n {
        v.push(Color { r: 0, g: 0, b: 0 });
    }
    v
}

fn bg_params(mode: BgMode, rainbow: Vec<Color>, duration_ns: u64) -> BgParameters {
    BgParameters {
        mode,
        rainbow,
        direction: Direction::Positive,
        is_rainbow_forward: true,
        duration_ns,
        subdivisions: 1,
    }
}

/// A solid background paints the palette's current color on every pixel and
/// never changes without an external trigger.
#[test]
fn solid_background_stays_on_the_first_color() {
    let rainbow = vec![c_red(), c_green(), c_blue()];
    let mut bg = Background::new(&bg_params(BgMode::Solid, rainbow, 0), 60);
    let mut segment = off_segment(4);
    for _ in 0..5 {
        bg.update(&mut segment, 0);
        for led in &segment {
            assert_eq!(*led, c_red());
        }
    }
}

/// A solid-fade background at ten frames duration is halfway between the
/// first two palette colors when painting frame five, and has advanced to
/// the second color right after the counter wraps.
#[test]
fn solid_fade_background_interpolates_and_advances() {
    let rainbow = vec![c_red(), c_green(), c_blue()];
    // one frame per second and a ten-second duration: ten frames
    let mut bg = Background::new(&bg_params(BgMode::SolidFade, rainbow, 10_000_000_000), 1);
    let mut segment = off_segment(4);
    for _ in 0..5 {
        bg.update(&mut segment, 0);
    }
    // the sixth update paints with the counter at five of ten
    bg.update(&mut segment, 0);
    for led in &segment {
        assert_eq!(*led, Color { r: 128, g: 127, b: 0 });
    }
    for _ in 0..4 {
        bg.update(&mut segment, 0);
    }
    // ten updates done: the counter wrapped and the palette advanced, so the
    // next paint starts exactly on green
    assert_eq!(bg.frames.current, 0);
    assert_eq!(bg.rainbow.position.current, 1);
    bg.update(&mut segment, 0);
    for led in &segment {
        assert_eq!(*led, c_green());
    }
}

/// An external trigger advances a solid background to the next palette
/// color on its next update.
#[test]
fn solid_background_trigger_advances_color() {
    let rainbow = vec![c_red(), c_green(), c_blue()];
    let mut bg = Background::new(&bg_params(BgMode::Solid, rainbow, 0), 60);
    let mut segment = off_segment(3);
    bg.update(&mut segment, 0);
    assert_eq!(segment[0], c_red());
    bg.has_been_triggered = true;
    bg.update(&mut segment, 0);
    assert_eq!(segment[0], c_green());
    assert!(!bg.has_been_triggered);
}

/// The rotating fill at its first frame with offset zero paints exactly the
/// same buffer as the static fill, whatever the rotation direction.
#[test]
fn fill_rotate_matches_fill_at_origin() {
    let rainbow = vec![c_red(), c_green(), c_blue()];
    for direction in [Direction::Positive, Direction::Stopped, Direction::Negative] {
        let params_fill = BgParameters {
            mode: BgMode::FillRainbow,
            rainbow: rainbow.clone(),
            direction,
            is_rainbow_forward: true,
            duration_ns: 20_000_000_000,
            subdivisions: 1,
        };
        let params_rotate = BgParameters { mode: BgMode::FillRainbowRotate, ..params_fill.clone() };
        let mut bg_fill = Background::new(&params_fill, 1);
        let mut bg_rotate = Background::new(&params_rotate, 1);
        let mut seg_fill = off_segment(4);
        let mut seg_rotate = off_segment(4);
        bg_fill.update(&mut seg_fill, 0);
        bg_rotate.update(&mut seg_rotate, 0);
        assert_eq!(seg_fill, seg_rotate);
    }
}

/// The rotating fill does move once frames have passed.
#[test]
fn fill_rotate_moves_after_frames_pass() {
    let rainbow = vec![c_red(), c_green(), c_blue()];
    let params = BgParameters {
        mode: BgMode::FillRainbowRotate,
        rainbow,
        direction: Direction::Positive,
        is_rainbow_forward: true,
        duration_ns: 4_000_000_000,
        subdivisions: 1,
    };
    let mut bg = Background::new(&params, 1);
    let mut seg = off_segment(4);
    bg.update(&mut seg, 0);
    let first = seg.clone();
    bg.update(&mut seg, 0);
    assert_ne!(first, seg);
}

/// A triggered fill jumps its anchor to the supplied random offset.
#[test]
fn fill_background_trigger_randomizes_offset() {
    let rainbow = vec![c_red(), c_green(), c_blue()];
    let mut bg = Background::new(&bg_params(BgMode::FillRainbow, rainbow, 0), 60);
    let mut seg = off_segment(4);
    bg.has_been_triggered = true;
    bg.update(&mut seg, 12345);
    assert_eq!(bg.offset, 12345);
    assert!(!bg.has_been_triggered);
}

#[test]
fn no_background_paints_everything_off() {
    let rainbow = vec![c_red()];
    let mut bg = Background::new(&bg_params(BgMode::NoBackground, rainbow, 0), 60);
    let mut seg = vec![c_red(), c_green(), c_blue()];
    bg.update(&mut seg, 0);
    for led in &seg {
        assert_eq!(*led, Color { r: 0, g: 0, b: 0 });
    }
}

fn fg_params(mode: FgMode, rainbow: Vec<Color>, step_time_ns: u64) -> FgParameters {
    FgParameters {
        mode,
        rainbow,
        direction: Direction::Positive,
        is_rainbow_forward: true,
        duration_ns: 0,
        step_time_ns,
        subdivisions: 1,
        pixels_per_pixel_group: 1,
    }
}

/// The fixed marquee with offset zero paints the even pixel groups and
/// leaves the odd ones showing the background.
#[test]
fn fixed_marquee_paints_even_groups() {
    let mut fg = Foreground::new(&fg_params(FgMode::MarqueeSolidFixed, vec![c_red()], 0), 60);
    let mut seg = off_segment(4);
    fg.update(&mut seg);
    assert_eq!(seg[0], c_red());
    assert_eq!(seg[1], Color { r: 0, g: 0, b: 0 });
    assert_eq!(seg[2], c_red());
    assert_eq!(seg[3], Color { r: 0, g: 0, b: 0 });
}

/// The moving marquee flips its parity when the step counter wraps.
#[test]
fn moving_marquee_toggles_on_step_wrap() {
    // one frame per second and a two-second step time: the toggle flips on
    // every second update
    let mut fg = Foreground::new(
        &fg_params(FgMode::MarqueeSolid, vec![c_red()], 2_000_000_000),
        1,
    );
    let mut seg = off_segment(2);
    fg.update(&mut seg);
    // toggle still false: odd pixels painted
    assert_eq!(seg, vec![Color { r: 0, g: 0, b: 0 }, c_red()]);
    let mut seg = off_segment(2);
    fg.update(&mut seg);
    // the step counter wrapped: even pixels painted now
    assert_eq!(seg, vec![c_red(), Color { r: 0, g: 0, b: 0 }]);
}

/// The VU meter cuts the segment off above the offset's share of the strip.
#[test]
fn vu_meter_cuts_off_above_the_offset() {
    let mut fg = Foreground::new(&fg_params(FgMode::VUMeter, vec![c_red()], 0), 60);
    fg.offset = 32768;
    let mut seg = vec![c_red(), c_red(), c_red(), c_red()];
    fg.update(&mut seg);
    assert_eq!(seg[0], c_red());
    assert_eq!(seg[1], c_red());
    assert_eq!(seg[2], Color { r: 0, g: 0, b: 0 });
    assert_eq!(seg[3], Color { r: 0, g: 0, b: 0 });
}

#[test]
fn shift_offset_moves_by_the_elapsed_fraction() {
    let mut frames = Progression::new(10);
    frames.set_current(5);
    assert_eq!(shift_offset(100, frames, Direction::Positive), 100 + 32767);
    assert_eq!(shift_offset(100, frames, Direction::Stopped), 100);
    // Negative direction counts the remaining fraction
    assert_eq!(shift_offset(0, frames, Direction::Negative), 32767);
    let empty = Progression::new(0);
    assert_eq!(shift_offset(42, empty, Direction::Positive), 42);
}

#[test]
fn stateful_rainbow_walks_the_palette() {
    let mut sr = StatefulRainbow::new(&[c_red(), c_green(), c_blue()], true);
    assert_eq!(sr.current_color(), c_red());
    assert_eq!(sr.peek_next_color(), c_green());
    assert_eq!(sr.peek_last_color(), c_blue());
    sr.increment();
    assert_eq!(sr.current_color(), c_green());
    sr.reset();
    assert_eq!(sr.current_color(), c_red());

    // a reversed rainbow reads the palette back to front
    let rev = StatefulRainbow::new(&[c_red(), c_green(), c_blue()], false);
    assert_eq!(rev.current_color(), c_blue());
}

/// The fill algorithm places the palette across the supersampled range and
/// interpolates inside each bucket: exact values for a four-LED strip over a
/// two-color palette.
#[test]
fn fill_rainbow_exact_gradient() {
    let rainbow = vec![c_red(), c_green()];
    let mut bg = Background::new(&bg_params(BgMode::FillRainbow, rainbow, 0), 60);
    let mut seg = off_segment(4);
    bg.update(&mut seg, 0);
    assert_eq!(seg[0], Color { r: 255, g: 0, b: 0 });
    assert_eq!(seg[1], Color { r: 128, g: 127, b: 0 });
    assert_eq!(seg[2], Color { r: 1, g: 254, b: 0 });
    assert_eq!(seg[3], Color { r: 127, g: 128, b: 0 });
}

/// On two LEDs the two palette colors land one per pixel.
#[test]
fn fill_rainbow_one_color_per_bucket() {
    let rainbow = vec![c_red(), c_green()];
    let mut bg = Background::new(&bg_params(BgMode::FillRainbow, rainbow, 0), 60);
    let mut seg = off_segment(2);
    bg.update(&mut seg, 0);
    assert_eq!(seg[0], c_red());
    assert_eq!(seg[1], c_green());
}
