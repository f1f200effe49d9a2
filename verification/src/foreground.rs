use vstd::prelude::*;

use crate::animations::Direction;
use crate::background::max_1;
use crate::colors::Color;
use crate::utility::{
    calculate_fade_color, convert_ns_to_frames, spec_fade_color, spec_ns_to_frames, Progression,
    StatefulRainbow,
};

verus! {

/// Foreground modes are rendered second: they animate over the background
/// layer but below the trigger animations.
#[derive(Copy, Clone, PartialEq, Eq, Structural, Debug)]
pub enum Mode {
    /// No additional foreground animation over the background.
    NoForeground,
    /// A marquee-style pixel chase in the palette cursor's current color; a
    /// trigger advances to the next color.
    MarqueeSolid,
    /// The same marquee pattern, but it only moves when the offset is
    /// repositioned externally; a trigger advances the color.
    MarqueeSolidFixed,
    /// A moving marquee whose color continuously fades through the palette;
    /// a trigger advances to the next color.
    MarqueeFade,
    /// The fixed-position marquee with the continuously fading color.
    MarqueeFadeFixed,
    /// Lights the segment up to a position derived from the offset and cuts
    /// it off above, leaving the unlit tail showing the background.
    VUMeter,
}

/// Everything needed to set up a foreground animation.
#[derive(Clone)]
pub struct Parameters {
    pub mode: Mode,
    pub rainbow: Vec<Color>,
    pub direction: Direction,
    pub is_rainbow_forward: bool,
    pub duration_ns: u64,
    pub step_time_ns: u64,
    pub subdivisions: usize,
    pub pixels_per_pixel_group: usize,
}

/// The foreground layer's state: the externally settable offset, the color
/// duration counter, the marquee step counter and parity toggle, the
/// pending-trigger flag, and the palette cursor.
pub struct Foreground {
    pub offset: u16,
    pub frames: Progression,
    pub step_frames: Progression,
    pub marquee_position_toggle: bool,
    pub has_been_triggered: bool,
    pub rainbow: StatefulRainbow,
    pub direction: Direction,
    pub subdivisions: usize,
    pub pixels_per_pixel_group: usize,
    pub mode: Mode,
}

/// What a marquee paints on pixel `i`: the segment alternates "on" and "off"
/// runs of `pppg` pixels; the run parity selected by `toggle` gets `color`,
/// the other keeps what the lower layer painted.
pub open spec fn spec_marquee_pixel(
    seg: Seq<Color>,
    color: Color,
    pppg: int,
    toggle: bool,
    i: int,
) -> Color {
    let subpip_number = i % (pppg * 2);
    if (subpip_number < pppg) == toggle {
        color
    } else {
        seg[i]
    }
}

impl Foreground {
    /// Well-formedness: sound cursor and counters, the color counter inside
    /// interpolation range, and a positive, bounded marquee group width.
    pub open spec fn wf(self) -> bool {
        &&& self.rainbow.wf()
        &&& self.frames.wf()
        &&& self.step_frames.wf()
        &&& self.frames.total <= 0x00ff_ffff
        &&& 1 <= self.pixels_per_pixel_group <= 65535
    }

    /// The parity the fixed marquee variants derive from the offset: which
    /// group of `pppg` supersampled pip positions the offset points into.
    pub open spec fn spec_fixed_toggle(self, led_count: int) -> bool {
        let pip_distance = (65535int / led_count) * max_1(self.pixels_per_pixel_group as int);
        let led_bucket = (self.offset as int) / max_1(pip_distance);
        led_bucket % 2 == 0
    }

    /// The number of lit pixels the VU meter shows: the offset's fraction of
    /// the supersampled range, scaled to the segment length.
    pub open spec fn spec_vu_lit_count(self, led_count: int) -> int {
        (self.offset as int) * led_count / 65535
    }

    /// The state after a pending trigger is consumed: the marquee modes
    /// advance the palette color and restart the color counter; the other
    /// modes leave the flag in place.
    pub open spec fn spec_triggered(self) -> Foreground {
        if !self.has_been_triggered {
            self
        } else {
            match self.mode {
                Mode::MarqueeSolid | Mode::MarqueeSolidFixed | Mode::MarqueeFade
                    | Mode::MarqueeFadeFixed => Foreground {
                    has_been_triggered: false,
                    rainbow: StatefulRainbow {
                        position: self.rainbow.position.spec_inc(),
                        ..self.rainbow
                    },
                    frames: Progression { current: 0, ..self.frames },
                    ..self
                },
                _ => self,
            }
        }
    }

    /// The marquee movement during an update: the moving variants advance
    /// the step counter and flip the parity when it wraps; the fixed
    /// variants derive the parity from the offset.
    pub open spec fn spec_marquee_stepped(self, led_count: int) -> Foreground {
        match self.mode {
            Mode::MarqueeSolid | Mode::MarqueeFade => Foreground {
                step_frames: self.step_frames.spec_inc(),
                marquee_position_toggle: if self.step_frames.spec_inc_rolls() {
                    !self.marquee_position_toggle
                } else {
                    self.marquee_position_toggle
                },
                ..self
            },
            Mode::MarqueeSolidFixed | Mode::MarqueeFadeFixed => Foreground {
                marquee_position_toggle: self.spec_fixed_toggle(led_count),
                ..self
            },
            _ => self,
        }
    }

    /// The color a marquee paints this frame: the solid variants use the
    /// palette cursor's current color, the fade variants the continuous fade
    /// toward the next color.
    pub open spec fn spec_paint_color(self) -> Color {
        match self.mode {
            Mode::MarqueeFade | Mode::MarqueeFadeFixed => spec_fade_color(
                self.rainbow,
                self.frames,
            ),
            _ => self.rainbow.spec_current_color(),
        }
    }

    /// The segment an update paints, given the post-trigger, post-step state
    /// `f` and the segment the background left behind.
    pub open spec fn spec_painted_segment(f: Foreground, seg: Seq<Color>) -> Seq<Color> {
        match f.mode {
            Mode::NoForeground => seg,
            Mode::MarqueeSolid | Mode::MarqueeSolidFixed | Mode::MarqueeFade
                | Mode::MarqueeFadeFixed => Seq::new(
                seg.len(),
                |i: int|
                    spec_marquee_pixel(
                        seg,
                        f.spec_paint_color(),
                        f.pixels_per_pixel_group as int,
                        f.marquee_position_toggle,
                        i,
                    ),
            ),
            Mode::VUMeter => Seq::new(
                seg.len(),
                |i: int|
                    if i >= f.spec_vu_lit_count(seg.len() as int) {
                        Color { r: 0, g: 0, b: 0 }
                    } else {
                        seg[i]
                    },
            ),
        }
    }

    /// The frame step at the end of every update: the color counter
    /// advances, and when it wraps the palette index moves along.
    pub open spec fn spec_frame_step(f: Foreground) -> Foreground {
        if f.frames.spec_inc_rolls() {
            Foreground {
                frames: f.frames.spec_inc(),
                rainbow: StatefulRainbow { position: f.rainbow.position.spec_inc(), ..f.rainbow },
                ..f
            }
        } else {
            Foreground { frames: f.frames.spec_inc(), ..f }
        }
    }

    /// The whole state transition one update makes on a segment of
    /// `led_count` pixels.
    pub open spec fn spec_step_state(self, led_count: int) -> Foreground {
        Self::spec_frame_step(self.spec_triggered().spec_marquee_stepped(led_count))
    }

    /// The segment contents one update leaves behind.
    pub open spec fn spec_step_segment(self, seg: Seq<Color>) -> Seq<Color> {
        Self::spec_painted_segment(self.spec_triggered().spec_marquee_stepped(seg.len() as int), seg)
    }

    /// Whether `self` is exactly the state `new` builds from `init` at the
    /// given frame rate: everything at rest, the two durations converted to
    /// frames, the group width upsized to at least one pixel, and the
    /// palette copied into the cursor.
    pub open spec fn spec_matches_new(self, init: Parameters, frame_rate_hz: u32) -> bool {
        &&& self.offset == 0
        &&& self.frames == (Progression {
            current: 0,
            total: spec_ns_to_frames(init.duration_ns, frame_rate_hz) as usize,
            is_forward: true,
        })
        &&& self.step_frames == (Progression {
            current: 0,
            total: spec_ns_to_frames(init.step_time_ns, frame_rate_hz) as usize,
            is_forward: true,
        })
        &&& self.marquee_position_toggle == false
        &&& self.has_been_triggered == false
        &&& self.rainbow.backer.backer@ == init.rainbow@
        &&& self.rainbow.backer.is_forward == init.is_rainbow_forward
        &&& self.rainbow.position == (Progression {
            current: 0,
            total: init.rainbow@.len() as usize,
            is_forward: true,
        })
        &&& self.direction == init.direction
        &&& self.subdivisions == init.subdivisions
        &&& self.pixels_per_pixel_group == max_1(init.pixels_per_pixel_group as int)
        &&& self.mode == init.mode
    }

    /// The machine limits `new` needs.
    pub open spec fn spec_params_ok(init: Parameters, frame_rate_hz: u32) -> bool {
        &&& init.rainbow@.len() >= 1
        &&& init.duration_ns * frame_rate_hz <= u64::MAX
        &&& init.step_time_ns * frame_rate_hz <= u64::MAX
        &&& spec_ns_to_frames(init.duration_ns, frame_rate_hz) <= 0x00ff_ffff
        &&& spec_ns_to_frames(init.step_time_ns, frame_rate_hz) <= usize::MAX
        &&& init.pixels_per_pixel_group <= 65535
    }

    pub fn new(init: &Parameters, frame_rate_hz: u32) -> (fg: Self)
        requires
            Self::spec_params_ok(*init, frame_rate_hz),
        ensures
            fg.spec_matches_new(*init, frame_rate_hz),
            fg.wf(),
    {
        let frame_count = convert_ns_to_frames(init.duration_ns, frame_rate_hz);
        let step_frame_count = convert_ns_to_frames(init.step_time_ns, frame_rate_hz);
        // A marquee group narrower than one pixel cannot be drawn, so a zero
        // width is upsized to one here rather than guarded at every use.
        let pixels_per_pixel_group = if init.pixels_per_pixel_group >= 1 {
            init.pixels_per_pixel_group
        } else {
            1
        };

        Self {
            offset: 0,
            frames: Progression::new(frame_count),
            step_frames: Progression::new(step_frame_count),
            marquee_position_toggle: false,
            has_been_triggered: false,
            rainbow: StatefulRainbow::new(init.rainbow.as_slice(), init.is_rainbow_forward),
            direction: init.direction,
            subdivisions: init.subdivisions,
            pixels_per_pixel_group,
            mode: init.mode,
        }
    }

    /// One frame of the foreground layer: consume a pending trigger, move
    /// the marquee, paint this mode's overlay over the background's pixels,
    /// and advance the color counter (advancing the palette when it wraps).
    pub fn update(&mut self, segment: &mut Vec<Color>)
        requires
            old(self).wf(),
            1 <= old(segment)@.len() <= 65535,
        ensures
            *final(self) == old(self).spec_step_state(old(segment)@.len() as int),
            final(self).wf(),
            final(segment)@ == old(self).spec_step_segment(old(segment)@),
    {
        match self.mode {
            Mode::NoForeground => {},
            Mode::MarqueeSolid => {
                self.handle_marquee_trigger();
                self.increment_marquee_step();
                let color = self.rainbow.current_color();
                self.fill_marquee(color, segment);
            },
            Mode::MarqueeSolidFixed => {
                self.handle_marquee_trigger();
                self.set_marquee_toggle(segment.len());
                let color = self.rainbow.current_color();
                self.fill_marquee(color, segment);
            },
            Mode::MarqueeFade => {
                self.handle_marquee_trigger();
                self.increment_marquee_step();
                let color = calculate_fade_color(&self.rainbow, &self.frames);
                self.fill_marquee(color, segment);
            },
            Mode::MarqueeFadeFixed => {
                self.handle_marquee_trigger();
                self.set_marquee_toggle(segment.len());
                let color = calculate_fade_color(&self.rainbow, &self.frames);
                self.fill_marquee(color, segment);
            },
            Mode::VUMeter => {
                self.vu_meter(segment);
            },
        }
        let rolled = self.frames.checked_increment();
        if rolled {
            self.rainbow.increment();
        }
    }

    pub fn reset_trigger(&mut self)
        ensures
            *final(self) == (Foreground { has_been_triggered: false, ..*old(self) }),
    {
        self.has_been_triggered = false;
    }

    /// Consumes a pending trigger by advancing the palette color and
    /// restarting the color counter.
    fn handle_marquee_trigger(&mut self)
        requires
            old(self).rainbow.wf(),
        ensures
            *final(self) == if old(self).has_been_triggered {
                (Foreground {
                    has_been_triggered: false,
                    rainbow: (StatefulRainbow {
                        position: old(self).rainbow.position.spec_inc(),
                        ..old(self).rainbow
                    }),
                    frames: (Progression { current: 0, ..old(self).frames }),
                    ..*old(self)
                })
            } else {
                *old(self)
            },
    {
        if self.has_been_triggered {
            self.rainbow.increment();
            self.frames.reset();
            self.reset_trigger();
        }
    }

    /// Advances the marquee step counter and, when it wraps, flips which
    /// parity of pixel groups shows the marquee color.
    fn increment_marquee_step(&mut self)
        requires
            old(self).step_frames.wf(),
        ensures
            *final(self) == (Foreground {
                step_frames: old(self).step_frames.spec_inc(),
                marquee_position_toggle: if old(self).step_frames.spec_inc_rolls() {
                    !old(self).marquee_position_toggle
                } else {
                    old(self).marquee_position_toggle
                },
                ..*old(self)
            }),
    {
        let did_roll = self.step_frames.checked_increment();
        if did_roll {
            self.marquee_position_toggle = !self.marquee_position_toggle;
        }
    }

    /// Derives the marquee parity for the fixed variants from the offset.
    fn set_marquee_toggle(&mut self, led_count: usize)
        requires
            old(self).wf(),
            1 <= led_count <= 65535,
        ensures
            *final(self) == (Foreground {
                marquee_position_toggle: old(self).spec_fixed_toggle(led_count as int),
                ..*old(self)
            }),
    {
        proof {
            assert((65535int / (led_count as int)) * (self.pixels_per_pixel_group as int) <= 65535
                * 65535) by (nonlinear_arith)
                requires
                    0 <= 65535int / (led_count as int) <= 65535,
                    0 <= self.pixels_per_pixel_group <= 65535,
            ;
        }
        let pip_distance = (65535 / led_count) * self.pixels_per_pixel_group;
        let divisor = if pip_distance >= 1 {
            pip_distance
        } else {
            1
        };
        let led_bucket = self.offset as usize / divisor;
        self.marquee_position_toggle = led_bucket % 2 == 0;
    }

    /// Paints the marquee pattern in `color` over the segment: alternating
    /// runs of `pixels_per_pixel_group` pixels, with the parity selected by
    /// the toggle painted and the other parity left as the background had it.
    fn fill_marquee(&mut self, color: Color, segment: &mut Vec<Color>)
        requires
            old(self).wf(),
            old(segment)@.len() <= 65535,
        ensures
            *final(self) == *old(self),
            final(segment)@ == Seq::new(
                old(segment)@.len(),
                |i: int|
                    spec_marquee_pixel(
                        old(segment)@,
                        color,
                        old(self).pixels_per_pixel_group as int,
                        old(self).marquee_position_toggle,
                        i,
                    ),
            ),
    {
        let px_per_pip = self.pixels_per_pixel_group;
        let toggle = self.marquee_position_toggle;
        let mut led_index: usize = 0;
        while led_index < segment.len()
            invariant
                self == old(self),
                px_per_pip == self.pixels_per_pixel_group,
                toggle == self.marquee_position_toggle,
                1 <= px_per_pip <= 65535,
                led_index <= segment@.len(),
                segment@.len() == old(segment)@.len(),
                forall|j: int|
                    0 <= j < led_index ==> segment@[j] == spec_marquee_pixel(
                        old(segment)@,
                        color,
                        px_per_pip as int,
                        toggle,
                        j,
                    ),
                forall|j: int|
                    led_index <= j < segment@.len() ==> segment@[j] == old(segment)@[j],
            decreases segment@.len() - led_index,
        {
            // Every time the index crosses a group boundary, the parity of
            // the group the pixel belongs to flips:
            let subpip_number = led_index % (px_per_pip * 2);

            if subpip_number < px_per_pip && toggle {
                segment.set(led_index, color);
            } else if subpip_number >= px_per_pip && !toggle {
                segment.set(led_index, color);
            }
            led_index = led_index + 1;
        }
        proof {
            assert(final(segment)@ =~= Seq::new(
                old(segment)@.len(),
                |i: int|
                    spec_marquee_pixel(
                        old(segment)@,
                        color,
                        old(self).pixels_per_pixel_group as int,
                        old(self).marquee_position_toggle,
                        i,
                    ),
            ));
        }
    }

    /// Cuts the segment off above the lit count derived from the offset,
    /// leaving the unlit tail showing the background.
    fn vu_meter(&mut self, segment: &mut Vec<Color>)
        requires
            old(self).wf(),
            1 <= old(segment)@.len() <= 65535,
        ensures
            *final(self) == *old(self),
            final(segment)@ == Seq::new(
                old(segment)@.len(),
                |i: int|
                    if i >= old(self).spec_vu_lit_count(old(segment)@.len() as int) {
                        Color { r: 0, g: 0, b: 0 }
                    } else {
                        old(segment)@[i]
                    },
            ),
    {
        let led_count = segment.len();
        proof {
            assert((self.offset as int) * (led_count as int) <= 65535 * 65535) by (nonlinear_arith)
                requires
                    0 <= self.offset <= 65535,
                    0 <= led_count <= 65535,
            ;
            assert(0 <= (self.offset as int) * (led_count as int) / 65535) by (nonlinear_arith)
                requires
                    0 <= (self.offset as int) * (led_count as int),
            ;
        }
        let last_on_led = (self.offset as usize) * led_count / 65535;
        let mut index: usize = if last_on_led < led_count {
            last_on_led
        } else {
            led_count
        };
        while index < segment.len()
            invariant
                segment@.len() == old(segment)@.len(),
                led_count == segment@.len(),
                last_on_led == old(self).spec_vu_lit_count(led_count as int),
                (if last_on_led < led_count {
                    last_on_led as int
                } else {
                    led_count as int
                }) <= index <= segment@.len(),
                self == old(self),
                forall|j: int| 0 <= j < last_on_led && j < segment@.len() ==> segment@[j] == old(
                    segment,
                )@[j],
                forall|j: int|
                    last_on_led <= j < index && j < segment@.len() ==> segment@[j] == (Color {
                        r: 0,
                        g: 0,
                        b: 0,
                    }),
                forall|j: int| index <= j < segment@.len() ==> segment@[j] == old(segment)@[j],
            decreases segment@.len() - index,
        {
            segment.set(index, Color { r: 0, g: 0, b: 0 });
            index = index + 1;
        }
        proof {
            assert(final(segment)@ =~= Seq::new(
                old(segment)@.len(),
                |i: int|
                    if i >= old(self).spec_vu_lit_count(old(segment)@.len() as int) {
                        Color { r: 0, g: 0, b: 0 }
                    } else {
                        old(segment)@[i]
                    },
            ));
        }
    }
}

} // verus!
