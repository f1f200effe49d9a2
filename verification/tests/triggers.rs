use ws28xx_anim::animations::{
    Animation, AnimationParameters, AnimationType, Direction, MAX_NUM_ACTIVE_TRIGGERS,
};
use ws28xx_anim::background::{Mode as BgMode, Parameters as BgParameters};
use ws28xx_anim::colors::{c_green, c_white, Color};
use ws28xx_anim::default_animations::{bg_off, fg_off};
use ws28xx_anim::trigger::{
    GlobalParameters, Mode as TriggerMode, Parameters as TriggerParameters, TriggerCollection,
};

fn off_segment(n: usize) -> Vec<Color> {
    let mut v = Vec::new();
    for _ in 0..n {
        v.push(Color { r: 0, g: 0, b: 0 });
    }
    v
}

fn white_globals() -> GlobalParameters {
    GlobalParameters { rainbow: vec![c_white()], is_rainbow_forward: true, duration_ns: 0 }
}

fn trigger_params(mode: TriggerMode, fade_in_s: u64, fade_out_s: u64) -> TriggerParameters {
    TriggerParameters {
        mode,
        direction: Direction::Stopped,
        fade_in_time_ns: fade_in_s * 1_000_000_000,
        fade_out_time_ns: fade_out_s * 1_000_000_000,
        starting_offset: 0,
        pixels_per_pixel_group: 1,
    }
}

/// A trigger with a window of `F` frames stays in the collection for exactly
/// `F - 1` updates and is gone afterwards.
#[test]
fn trigger_lives_for_its_window_minus_one() {
    // one frame per second, two seconds in and two out: a four-frame window
    let mut tc = TriggerCollection::new(&white_globals(), 1);
    tc.add_trigger(&trigger_params(TriggerMode::Flash, 2, 2), 1, 0);
    assert_eq!(tc.triggers.len(), 1);
    let mut seg = off_segment(4);
    // it takes part in three updates: retained by the first two, dropped at
    // the end of the third
    for _ in 0..2 {
        tc.update(&mut seg);
        assert_eq!(tc.triggers.len(), 1);
    }
    tc.update(&mut seg);
    assert_eq!(tc.triggers.len(), 0);
}

/// Adding a trigger to a full collection leaves it unchanged and does not
/// panic.
#[test]
fn trigger_collection_at_capacity_drops_new_triggers() {
    let mut tc = TriggerCollection::new(&white_globals(), 1);
    for _ in 0..MAX_NUM_ACTIVE_TRIGGERS {
        tc.add_trigger(&trigger_params(TriggerMode::ColorShot, 5, 5), 1, 0);
    }
    assert_eq!(tc.triggers.len(), MAX_NUM_ACTIVE_TRIGGERS);
    tc.add_trigger(&trigger_params(TriggerMode::ColorShot, 5, 5), 1, 99);
    assert_eq!(tc.triggers.len(), MAX_NUM_ACTIVE_TRIGGERS);
}

/// A flash over an all-off segment brightens toward the trigger color
/// during fade-in, dims back during fade-out, and is gone after its window.
#[test]
fn flash_fades_in_and_out_then_expires() {
    let params = AnimationParameters {
        bg: bg_off(),
        fg: fg_off(),
        trigger: white_globals(),
    };
    let translation = vec![0usize, 1, 2, 3];
    let mut animation = Animation::new(&params, translation, 1, 7);
    animation.trigger(&trigger_params(TriggerMode::Flash, 2, 2), 1);
    assert_eq!(animation.triggers.triggers.len(), 1);

    // frame 0 of the fade-in: interpolation factor zero, still off
    animation.update();
    assert_eq!(animation.segment()[0], Color { r: 0, g: 0, b: 0 });
    // frame 1: halfway toward white
    animation.update();
    assert_eq!(animation.segment()[0], Color { r: 127, g: 127, b: 127 });
    // frame 2, first fade-out frame: halfway back toward the layers below
    animation.update();
    assert_eq!(animation.segment()[0], Color { r: 127, g: 127, b: 127 });
    // the window is over: the trigger is gone and the segment is off again
    assert_eq!(animation.triggers.triggers.len(), 0);
    animation.update();
    assert_eq!(animation.segment()[0], Color { r: 0, g: 0, b: 0 });
    assert_eq!(animation.triggers.triggers.len(), 0);
}

/// A pulse paints only the pixel group at its position.
#[test]
fn color_pulse_paints_only_its_position() {
    let mut tc = TriggerCollection::new(&white_globals(), 1);
    // three frames in, none out: the second update paints at factor one of
    // three
    tc.add_trigger(&trigger_params(TriggerMode::ColorPulse, 3, 0), 1, 8);
    let mut seg = off_segment(4);
    tc.update(&mut seg);
    tc.update(&mut seg);
    // the random offset eight lands on pixel two of four
    assert_eq!(seg[0], Color { r: 0, g: 0, b: 0 });
    assert_eq!(seg[1], Color { r: 0, g: 0, b: 0 });
    assert_eq!(seg[2], Color { r: 85, g: 85, b: 85 });
    assert_eq!(seg[3], Color { r: 0, g: 0, b: 0 });
}

/// A shot stamps its full color at the position derived from its offset.
#[test]
fn color_shot_stamps_its_position() {
    let globals = GlobalParameters {
        rainbow: vec![c_green()],
        is_rainbow_forward: true,
        duration_ns: 0,
    };
    let mut tc = TriggerCollection::new(&globals, 1);
    let mut params = trigger_params(TriggerMode::ColorShot, 1, 0);
    // two sixteenths-of-range steps along a four-pixel strip: pixel two
    params.starting_offset = 32766;
    tc.add_trigger(&params, 1, 0);
    let mut seg = off_segment(4);
    tc.update(&mut seg);
    assert_eq!(seg[2], c_green());
    assert_eq!(seg[0], Color { r: 0, g: 0, b: 0 });
    // a one-frame window expires after its single update
    assert_eq!(tc.triggers.len(), 0);
}

/// The "rainbow" trigger flavors walk the shared palette: each new trigger
/// takes the next color in order, even when the collection is full.
#[test]
fn rainbow_triggers_step_the_shared_palette() {
    let globals = GlobalParameters {
        rainbow: vec![c_white(), c_green()],
        is_rainbow_forward: true,
        duration_ns: 0,
    };
    let mut tc = TriggerCollection::new(&globals, 1);
    tc.add_trigger(&trigger_params(TriggerMode::FlashRainbow, 2, 2), 1, 0);
    tc.add_trigger(&trigger_params(TriggerMode::FlashRainbow, 2, 2), 1, 0);
    assert_eq!(tc.triggers[0].color, c_white());
    assert_eq!(tc.triggers[1].color, c_green());
    assert_eq!(tc.incremental_rainbow.position.current, 0);
}

/// Trigger parameters addressed at the background layer only set its
/// pending flag.
#[test]
fn background_trigger_mode_sets_the_flag() {
    let params = AnimationParameters {
        bg: BgParameters {
            mode: BgMode::Solid,
            rainbow: vec![c_green(), c_white()],
            direction: Direction::Stopped,
            is_rainbow_forward: true,
            duration_ns: 0,
            subdivisions: 1,
        },
        fg: fg_off(),
        trigger: white_globals(),
    };
    let mut animation = Animation::new(&params, vec![0, 1], 60, 1);
    assert!(!animation.bg_state.has_been_triggered);
    animation.trigger(&trigger_params(TriggerMode::Background, 0, 0), 60);
    assert!(animation.bg_state.has_been_triggered);
    assert_eq!(animation.triggers.triggers.len(), 0);

    animation.trigger(&trigger_params(TriggerMode::Foreground, 0, 0), 60);
    assert!(animation.fg_state.has_been_triggered);

    animation.set_offset(AnimationType::Background, 500);
    assert_eq!(animation.bg_state.offset, 500);
    animation.set_offset(AnimationType::Foreground, 700);
    assert_eq!(animation.fg_state.offset, 700);
}

/// The "fade" trigger flavors sample the shared, slowly fading color: part
/// way through the shared duration window the sampled color sits between
/// the current and next palette colors.
#[test]
fn fade_triggers_sample_the_shared_fade_color() {
    let globals = GlobalParameters {
        rainbow: vec![c_white(), c_green()],
        is_rainbow_forward: true,
        duration_ns: 4_000_000_000,
    };
    let mut tc = TriggerCollection::new(&globals, 1);
    let mut seg = off_segment(4);
    // two of the four shared frames elapse
    tc.update(&mut seg);
    tc.update(&mut seg);
    tc.add_trigger(&trigger_params(TriggerMode::ColorPulseFade, 2, 2), 1, 0);
    // halfway from white toward green
    assert_eq!(tc.triggers[0].color, Color { r: 128, g: 255, b: 128 });

    // a "rainbow" flavor resets the shared duration counter as it advances
    tc.add_trigger(&trigger_params(TriggerMode::ColorShotRainbow, 2, 2), 1, 0);
    assert_eq!(tc.frames.current, 0);
    assert_eq!(tc.incremental_rainbow.position.current, 1);
}
