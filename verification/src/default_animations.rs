use vstd::prelude::*;

use crate::animations::{AnimationParameters, Direction};
use crate::background;
use crate::colors;
use crate::foreground;

verus! {

/// The default number of subdivisions for the fill animations: how often the
/// rainbow colors repeat over the whole strip. Zero would mean dividing a
/// rainbow by nothing, so the fill logic upsizes zero to one.
pub const DEFAULT_NUMBER_OF_SUBDIVISIONS: usize = 1;

/// The default number of LEDs in a row used as a single pip by a marquee
/// animation; a zero here is likewise upsized to one.
pub const DEFAULT_NUMBER_OF_PIXELS_PER_MARQUEE_PIP: usize = 1;

/// Whether `p` is the background-off parameter set.
pub open spec fn spec_is_bg_off(p: background::Parameters) -> bool {
    &&& p.mode == background::Mode::NoBackground
    &&& p.rainbow@ == colors::spec_r_off()
    &&& p.direction == Direction::Stopped
    &&& p.is_rainbow_forward == true
    &&& p.duration_ns == 0
    &&& p.subdivisions == DEFAULT_NUMBER_OF_SUBDIVISIONS
}

/// Whether `p` is the foreground-off parameter set.
pub open spec fn spec_is_fg_off(p: foreground::Parameters) -> bool {
    &&& p.mode == foreground::Mode::NoForeground
    &&& p.rainbow@ == colors::spec_r_off()
    &&& p.direction == Direction::Stopped
    &&& p.is_rainbow_forward == true
    &&& p.duration_ns == 0
    &&& p.step_time_ns == 0
    &&& p.subdivisions == DEFAULT_NUMBER_OF_SUBDIVISIONS
    &&& p.pixels_per_pixel_group == DEFAULT_NUMBER_OF_PIXELS_PER_MARQUEE_PIP
}

/// Whether `p` is the trigger-off parameter set.
pub open spec fn spec_is_trigger_off(p: crate::trigger::GlobalParameters) -> bool {
    &&& p.rainbow@ == colors::spec_r_off()
    &&& p.is_rainbow_forward == true
    &&& p.duration_ns == 0
}

/// Background parameters that turn off all background effects.
pub fn bg_off() -> (p: background::Parameters)
    ensures
        spec_is_bg_off(p),
{
    background::Parameters {
        mode: background::Mode::NoBackground,
        rainbow: colors::r_off(),
        direction: Direction::Stopped,
        is_rainbow_forward: true,
        duration_ns: 0,
        subdivisions: DEFAULT_NUMBER_OF_SUBDIVISIONS,
    }
}

/// Foreground parameters that turn off all foreground effects.
pub fn fg_off() -> (p: foreground::Parameters)
    ensures
        spec_is_fg_off(p),
{
    foreground::Parameters {
        mode: foreground::Mode::NoForeground,
        rainbow: colors::r_off(),
        direction: Direction::Stopped,
        is_rainbow_forward: true,
        duration_ns: 0,
        step_time_ns: 0,
        subdivisions: DEFAULT_NUMBER_OF_SUBDIVISIONS,
        pixels_per_pixel_group: DEFAULT_NUMBER_OF_PIXELS_PER_MARQUEE_PIP,
    }
}

/// Global trigger parameters that turn off all trigger effects.
pub fn trigger_off() -> (p: crate::trigger::GlobalParameters)
    ensures
        spec_is_trigger_off(p),
{
    crate::trigger::GlobalParameters {
        rainbow: colors::r_off(),
        is_rainbow_forward: true,
        duration_ns: 0,
    }
}

/// Animation parameters that turn off all three layers.
pub fn ani_all_off() -> (p: AnimationParameters)
    ensures
        spec_is_bg_off(p.bg),
        spec_is_fg_off(p.fg),
        spec_is_trigger_off(p.trigger),
{
    AnimationParameters { bg: bg_off(), fg: fg_off(), trigger: trigger_off() }
}

/// A rotating-fill background over the classic rainbow, handy for trying a
/// new strip out.
pub fn bg_test() -> (p: background::Parameters)
    ensures
        p.mode == background::Mode::FillRainbowRotate,
        p.rainbow@ == colors::spec_r_roygbiv(),
        p.direction == Direction::Positive,
        p.is_rainbow_forward == true,
        p.duration_ns == 20_000_000_000,
        p.subdivisions == 0,
{
    background::Parameters {
        mode: background::Mode::FillRainbowRotate,
        rainbow: colors::r_roygbiv(),
        direction: Direction::Positive,
        is_rainbow_forward: true,
        duration_ns: 20_000_000_000,
        subdivisions: 0,
    }
}

/// A quiet foreground to pair with `bg_test`.
pub fn fg_test() -> (p: foreground::Parameters)
    ensures
        p.mode == foreground::Mode::NoForeground,
        p.rainbow@ == colors::spec_r_off(),
        p.direction == Direction::Positive,
        p.is_rainbow_forward == true,
        p.duration_ns == 10_000_000_000,
        p.step_time_ns == 1_000_000_000,
        p.subdivisions == DEFAULT_NUMBER_OF_SUBDIVISIONS,
        p.pixels_per_pixel_group == 1,
{
    foreground::Parameters {
        mode: foreground::Mode::NoForeground,
        rainbow: colors::r_off(),
        direction: Direction::Positive,
        is_rainbow_forward: true,
        duration_ns: 10_000_000_000,
        step_time_ns: 1_000_000_000,
        subdivisions: DEFAULT_NUMBER_OF_SUBDIVISIONS,
        pixels_per_pixel_group: 1,
    }
}

/// Trigger settings over the classic rainbow to pair with `bg_test`.
pub fn trigger_test() -> (p: crate::trigger::GlobalParameters)
    ensures
        p.rainbow@ == colors::spec_r_roygbiv(),
        p.is_rainbow_forward == true,
        p.duration_ns == 10_000_000_000,
{
    crate::trigger::GlobalParameters {
        rainbow: colors::r_roygbiv(),
        is_rainbow_forward: true,
        duration_ns: 10_000_000_000,
    }
}

/// The test animation: the rotating rainbow fill with quiet foreground and
/// rainbow triggers.
pub fn ani_test() -> (p: AnimationParameters)
    ensures
        p.bg.mode == background::Mode::FillRainbowRotate,
        p.bg.rainbow@ == colors::spec_r_roygbiv(),
        p.fg.mode == foreground::Mode::NoForeground,
        p.trigger.rainbow@ == colors::spec_r_roygbiv(),
{
    AnimationParameters { bg: bg_test(), fg: fg_test(), trigger: trigger_test() }
}

} // verus!
