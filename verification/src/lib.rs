use vstd::prelude::*;

pub mod animations;
pub mod background;
pub mod colors;
pub mod default_animations;
pub mod foreground;
pub mod leds;
pub mod lighting_controller;
pub mod trigger;
pub mod utility;

use crate::leds::ws28xx::{spec_total_led_count, PhysicalStrip};

verus! {

/// The total number of LEDs across a set of physical strips; the logical
/// color buffer must hold exactly this many colors.
pub fn get_total_num_leds(strips: &[PhysicalStrip]) -> (total: usize)
    requires
        spec_total_led_count(strips@) <= usize::MAX,
    ensures
        total == spec_total_led_count(strips@),
{
    let mut index: usize = 0;
    let mut total: usize = 0;
    while index < strips.len()
        invariant
            index <= strips@.len(),
            total == leds::ws28xx::spec_strip_start(strips@, index as int),
            spec_total_led_count(strips@) <= usize::MAX,
        decreases strips@.len() - index,
    {
        proof {
            leds::ws28xx::lemma_strip_start_monotone(
                strips@,
                index as int + 1,
                strips@.len() as int,
            );
        }
        total = total + strips[index].led_count;
        index = index + 1;
    }
    total
}

} // verus!
