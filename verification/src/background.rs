use vstd::prelude::*;

use crate::animations::Direction;
use crate::colors::Color;
use crate::utility::{
    calculate_fade_color, convert_ns_to_frames, shift_offset, spec_fade_color, spec_lerp,
    spec_ns_to_frames, spec_shift_offset, Progression, ReversibleRainbow, StatefulRainbow,
};

verus! {

/// Background modes are rendered onto the animation LEDs first; foreground
/// and trigger layers may overwrite the pixels they touch.
#[derive(Copy, Clone, PartialEq, Eq, Structural, Debug)]
pub enum Mode {
    /// Turns off all the LEDs in the animation for the background layer.
    NoBackground,
    /// A solid, unchanging color on all the LEDs: the palette cursor's
    /// current color, which advances only on an external trigger.
    Solid,
    /// A solid color on all the LEDs that continuously fades toward the next
    /// palette color over the duration counter, advancing the palette index
    /// each time the counter wraps; a trigger force-advances the color.
    SolidFade,
    /// Distributes the palette evenly across the segment, anchored at the
    /// settable offset; a trigger jumps to a random offset.
    FillRainbow,
    /// As `FillRainbow`, but the anchor advances with the frame counter so
    /// the pattern rotates; a trigger re-randomizes the base offset.
    FillRainbowRotate,
}

/// Everything needed to set up a background animation.
#[derive(Clone)]
pub struct Parameters {
    pub mode: Mode,
    pub rainbow: Vec<Color>,
    pub direction: Direction,
    pub is_rainbow_forward: bool,
    pub duration_ns: u64,
    pub subdivisions: usize,
}

/// The background layer's state: the anchor offset, the duration counter,
/// the pending-trigger flag, and the palette cursor.
pub struct Background {
    pub offset: u16,
    pub frames: Progression,
    pub has_been_triggered: bool,
    pub rainbow: StatefulRainbow,
    pub direction: Direction,
    pub subdivisions: usize,
    pub mode: Mode,
}

/// `n`, never smaller than one: the guard that keeps palette subdivisions
/// from producing a division by zero.
pub open spec fn max_1(n: int) -> int {
    if n > 1 {
        n
    } else {
        1
    }
}

/// The color the shared fill algorithm paints on LED `i` of `led_count`:
/// LED positions are spread evenly over the supersampled range
/// `0..MAX_OFFSET`, shifted by the anchor offset, split into buckets of one
/// palette step each, and interpolated within the bucket between the two
/// neighboring palette colors.
pub open spec fn spec_fill_color(
    start_offset: int,
    rainbow: ReversibleRainbow,
    subdivisions: int,
    led_count: int,
    i: int,
) -> Color {
    let led_position = i * (65535int / led_count);
    let shifted = (led_position + 65535 - start_offset) % 65535;
    let rainbow_length = rainbow.backer@.len() as int;
    let distance_between_colors = 65535int / (rainbow_length * max_1(subdivisions));
    let bucket = shifted / distance_between_colors;
    let factor = shifted - bucket * distance_between_colors;
    let start_color = rainbow.spec_color_at(bucket % rainbow_length);
    let end_color = rainbow.spec_color_at((bucket + 1) % rainbow_length);
    spec_lerp(start_color, end_color, factor, distance_between_colors)
}

impl Background {
    /// Well-formedness: the cursor and counter are sound, the counter fits
    /// the interpolation arithmetic, and the palette (repeated by the
    /// subdivision count) is never wider than the supersampled range.
    pub open spec fn wf(self) -> bool {
        &&& self.rainbow.wf()
        &&& self.frames.wf()
        &&& self.frames.total <= 0x00ff_ffff
        &&& self.rainbow.backer.backer@.len() * max_1(self.subdivisions as int) <= 65535
    }

    /// The state after a pending trigger has been consumed: solid modes
    /// advance the palette color and restart the duration counter, fill
    /// modes jump to the supplied random offset, and `NoBackground` ignores
    /// the flag.
    pub open spec fn spec_triggered(self, random_offset: u16) -> Background {
        if !self.has_been_triggered {
            self
        } else {
            match self.mode {
                Mode::NoBackground => self,
                Mode::Solid | Mode::SolidFade => Background {
                    has_been_triggered: false,
                    rainbow: StatefulRainbow {
                        position: self.rainbow.position.spec_inc(),
                        ..self.rainbow
                    },
                    frames: Progression { current: 0, ..self.frames },
                    ..self
                },
                Mode::FillRainbow | Mode::FillRainbowRotate => Background {
                    has_been_triggered: false,
                    offset: random_offset,
                    ..self
                },
            }
        }
    }

    /// The segment an update paints, given the post-trigger state `b` and
    /// the previous segment contents (only the length matters: the
    /// background repaints every pixel).
    pub open spec fn spec_painted_segment(b: Background, seg: Seq<Color>) -> Seq<Color> {
        match b.mode {
            Mode::NoBackground => Seq::new(seg.len(), |i: int| Color { r: 0, g: 0, b: 0 }),
            Mode::Solid => Seq::new(seg.len(), |i: int| b.rainbow.spec_current_color()),
            Mode::SolidFade => Seq::new(seg.len(), |i: int| spec_fade_color(b.rainbow, b.frames)),
            Mode::FillRainbow => Seq::new(
                seg.len(),
                |i: int|
                    spec_fill_color(
                        b.offset as int,
                        b.rainbow.backer,
                        b.subdivisions as int,
                        seg.len() as int,
                        i,
                    ),
            ),
            Mode::FillRainbowRotate => Seq::new(
                seg.len(),
                |i: int|
                    spec_fill_color(
                        spec_shift_offset(b.offset, b.frames, b.direction),
                        b.rainbow.backer,
                        b.subdivisions as int,
                        seg.len() as int,
                        i,
                    ),
            ),
        }
    }

    /// The state change painting itself makes: the fill modes rewind the
    /// palette cursor to its first color (the fill always starts there).
    pub open spec fn spec_paint_state(b: Background) -> Background {
        match b.mode {
            Mode::FillRainbow | Mode::FillRainbowRotate => Background {
                rainbow: StatefulRainbow {
                    position: Progression { current: 0, ..b.rainbow.position },
                    ..b.rainbow
                },
                ..b
            },
            _ => b,
        }
    }

    /// The frame step at the end of an update: the duration counter
    /// advances; in `SolidFade` a wrap of the counter also advances the
    /// palette index, so the fade target becomes the following color.
    pub open spec fn spec_frame_step(b: Background) -> Background {
        match b.mode {
            Mode::SolidFade => if b.frames.spec_inc_rolls() {
                Background {
                    frames: b.frames.spec_inc(),
                    rainbow: StatefulRainbow { position: b.rainbow.position.spec_inc(), ..b.rainbow },
                    ..b
                }
            } else {
                Background { frames: b.frames.spec_inc(), ..b }
            },
            _ => Background { frames: b.frames.spec_inc(), ..b },
        }
    }

    /// The whole state transition one update makes.
    pub open spec fn spec_step_state(self, random_offset: u16) -> Background {
        Self::spec_frame_step(Self::spec_paint_state(self.spec_triggered(random_offset)))
    }

    /// The segment contents one update paints.
    pub open spec fn spec_step_segment(self, seg: Seq<Color>, random_offset: u16) -> Seq<Color> {
        Self::spec_painted_segment(self.spec_triggered(random_offset), seg)
    }

    /// Whether `self` is exactly the state `new` builds from `init` at the
    /// given frame rate: everything at rest, the duration converted to
    /// frames, and the palette copied into the cursor.
    pub open spec fn spec_matches_new(self, init: Parameters, frame_rate_hz: u32) -> bool {
        &&& self.offset == 0
        &&& self.frames == (Progression {
            current: 0,
            total: spec_ns_to_frames(init.duration_ns, frame_rate_hz) as usize,
            is_forward: true,
        })
        &&& self.has_been_triggered == false
        &&& self.rainbow.backer.backer@ == init.rainbow@
        &&& self.rainbow.backer.is_forward == init.is_rainbow_forward
        &&& self.rainbow.position == (Progression {
            current: 0,
            total: init.rainbow@.len() as usize,
            is_forward: true,
        })
        &&& self.direction == init.direction
        &&& self.subdivisions == init.subdivisions
        &&& self.mode == init.mode
    }

    /// The machine limits `new` needs: a non-empty palette that fits the
    /// supersampled range, and a frame count inside interpolation range.
    pub open spec fn spec_params_ok(init: Parameters, frame_rate_hz: u32) -> bool {
        &&& init.rainbow@.len() >= 1
        &&& init.rainbow@.len() * max_1(init.subdivisions as int) <= 65535
        &&& init.duration_ns * frame_rate_hz <= u64::MAX
        &&& spec_ns_to_frames(init.duration_ns, frame_rate_hz) <= 0x00ff_ffff
    }

    pub fn new(init: &Parameters, frame_rate_hz: u32) -> (bg: Self)
        requires
            Self::spec_params_ok(*init, frame_rate_hz),
        ensures
            bg.spec_matches_new(*init, frame_rate_hz),
            bg.wf(),
    {
        let frame_count = convert_ns_to_frames(init.duration_ns, frame_rate_hz);
        Self {
            offset: 0,
            frames: Progression::new(frame_count),
            has_been_triggered: false,
            rainbow: StatefulRainbow::new(init.rainbow.as_slice(), init.is_rainbow_forward),
            direction: init.direction,
            subdivisions: init.subdivisions,
            mode: init.mode,
        }
    }

    /// One frame of the background layer: consume a pending trigger, paint
    /// every pixel of the segment for this mode, and advance the duration
    /// counter. `random_offset` is the externally drawn random value a
    /// triggered fill mode jumps to.
    pub fn update(&mut self, segment: &mut Vec<Color>, random_offset: u16)
        requires
            old(self).wf(),
            1 <= old(segment)@.len() <= 65535,
        ensures
            *final(self) == old(self).spec_step_state(random_offset),
            final(self).wf(),
            final(segment)@ == old(self).spec_step_segment(old(segment)@, random_offset),
    {
        match self.mode {
            Mode::NoBackground => {
                fill_solid(Color { r: 0, g: 0, b: 0 }, segment);
            },
            Mode::Solid => {
                self.handle_solid_trigger();
                let color = self.rainbow.current_color();
                fill_solid(color, segment);
            },
            Mode::SolidFade => {
                self.handle_solid_trigger();
                let color = calculate_fade_color(&self.rainbow, &self.frames);
                fill_solid(color, segment);
            },
            Mode::FillRainbow => {
                self.handle_rainbow_trigger(random_offset);
                let start_offset = self.offset;
                self.fill_rainbow(start_offset, segment);
            },
            Mode::FillRainbowRotate => {
                self.handle_rainbow_trigger(random_offset);
                let start_offset = shift_offset(self.offset, self.frames, self.direction);
                self.fill_rainbow(start_offset, segment);
            },
        }
        match self.mode {
            Mode::SolidFade => {
                let rolled = self.frames.checked_increment();
                if rolled {
                    self.rainbow.increment();
                }
            },
            _ => {
                self.frames.increment();
            },
        }
    }

    pub fn reset_trigger(&mut self)
        ensures
            *final(self) == (Background { has_been_triggered: false, ..*old(self) }),
    {
        self.has_been_triggered = false;
    }

    /// Consumes a pending trigger for the fill modes by jumping the anchor
    /// to the supplied random offset.
    fn handle_rainbow_trigger(&mut self, random_offset: u16)
        ensures
            *final(self) == if old(self).has_been_triggered {
                (Background { has_been_triggered: false, offset: random_offset, ..*old(self) })
            } else {
                *old(self)
            },
    {
        if self.has_been_triggered {
            self.offset = random_offset;
            self.reset_trigger();
        }
    }

    /// Consumes a pending trigger for the solid modes by advancing the
    /// palette color and restarting the duration counter.
    fn handle_solid_trigger(&mut self)
        requires
            old(self).rainbow.wf(),
        ensures
            *final(self) == if old(self).has_been_triggered {
                (Background {
                    has_been_triggered: false,
                    rainbow: (StatefulRainbow {
                        position: old(self).rainbow.position.spec_inc(),
                        ..old(self).rainbow
                    }),
                    frames: (Progression { current: 0, ..old(self).frames }),
                    ..*old(self)
                })
            } else {
                *old(self)
            },
    {
        if self.has_been_triggered {
            self.rainbow.increment();
            self.frames.reset();
            self.reset_trigger();
        }
    }

    /// Paints the shared fill pattern anchored at `start_offset` across the
    /// segment, interpolating between neighboring palette colors within each
    /// supersampled bucket, and rewinds the palette cursor.
    fn fill_rainbow(&mut self, start_offset: u16, segment: &mut Vec<Color>)
        requires
            old(self).wf(),
            1 <= old(segment)@.len() <= 65535,
        ensures
            *final(self) == (Background {
                rainbow: (StatefulRainbow {
                    position: (Progression { current: 0, ..old(self).rainbow.position }),
                    ..old(self).rainbow
                }),
                ..*old(self)
            }),
            final(self).wf(),
            final(segment)@.len() == old(segment)@.len(),
            forall|i: int|
                0 <= i < old(segment)@.len() ==> final(segment)@[i] == spec_fill_color(
                    start_offset as int,
                    old(self).rainbow.backer,
                    old(self).subdivisions as int,
                    old(segment)@.len() as int,
                    i,
                ),
    {
        let start_offset = start_offset as usize;
        let max_offset: usize = 65535;
        let led_count = segment.len();
        // The LED positions are distributed evenly over the supersampled
        // range to let short strips render smooth gradients.
        let position_step = max_offset / led_count;

        // Always start with the first color of the rainbow:
        self.rainbow.reset();

        let rainbow_length = self.rainbow.backer.len();

        // The distance between palette colors accounts for the rainbow being
        // repeated by the number of subdivisions:
        let subdivisions = if self.subdivisions > 1 {
            self.subdivisions
        } else {
            1
        };
        proof {
            assert(rainbow_length * subdivisions >= 1) by (nonlinear_arith)
                requires
                    rainbow_length >= 1,
                    subdivisions >= 1,
            ;
        }
        let total_num_rainbow_colors = rainbow_length * subdivisions;
        proof {
            vstd::arithmetic::div_mod::lemma_div_non_zero(65535, total_num_rainbow_colors as int);
        }
        let distance_between_colors = max_offset / total_num_rainbow_colors;

        let mut index: usize = 0;
        while index < led_count
            invariant
                self.wf(),
                *self == (Background {
                    rainbow: (StatefulRainbow {
                        position: (Progression { current: 0, ..old(self).rainbow.position }),
                        ..old(self).rainbow
                    }),
                    ..*old(self)
                }),
                index <= led_count,
                led_count == segment@.len(),
                1 <= led_count <= 65535,
                start_offset <= 65535,
                max_offset == 65535,
                position_step == 65535int / (led_count as int),
                rainbow_length == self.rainbow.backer.backer@.len(),
                subdivisions == max_1(old(self).subdivisions as int),
                total_num_rainbow_colors == rainbow_length * subdivisions,
                1 <= total_num_rainbow_colors <= 65535,
                distance_between_colors == 65535int / (total_num_rainbow_colors as int),
                1 <= distance_between_colors <= 65535,
                forall|j: int|
                    0 <= j < index ==> segment@[j] == spec_fill_color(
                        start_offset as int,
                        old(self).rainbow.backer,
                        old(self).subdivisions as int,
                        led_count as int,
                        j,
                    ),
            decreases led_count - index,
        {
            proof {
                assert(index * position_step < 65535) by (nonlinear_arith)
                    requires
                        0 <= index < led_count,
                        led_count >= 1,
                        position_step == 65535int / (led_count as int),
                ;
            }
            let led_position = index * position_step;
            // Move the LED position by the offset rather than moving the
            // rainbow itself:
            let shifted_position = (led_position + max_offset - start_offset) % max_offset;

            // All positions from one color to just before the next map to
            // the same rainbow bucket:
            let rainbow_bucket = shifted_position / distance_between_colors;
            proof {
                vstd::arithmetic::div_mod::lemma_fundamental_div_mod(
                    shifted_position as int,
                    distance_between_colors as int,
                );
            }
            let bucket_start = rainbow_bucket * distance_between_colors;
            proof {
                assert(bucket_start <= shifted_position);
                assert(shifted_position - bucket_start < distance_between_colors);
            }
            let factor = shifted_position - bucket_start;

            let start_color_index = rainbow_bucket % rainbow_length;
            let start_color = self.rainbow.backer.color_at(start_color_index);

            let end_color_index = (rainbow_bucket + 1) % rainbow_length;
            let end_color = self.rainbow.backer.color_at(end_color_index);

            let mid_color = Color::color_lerp(
                factor as i32,
                0,
                distance_between_colors as i32,
                start_color,
                end_color,
            );

            segment.set(index, mid_color);
            index = index + 1;
        }
    }
}

/// Sets every pixel of the segment to `color` (a direct overwrite: no gamma
/// correction is applied here).
fn fill_solid(color: Color, segment: &mut Vec<Color>)
    ensures
        final(segment)@ == Seq::new(old(segment)@.len(), |i: int| color),
{
    let mut index: usize = 0;
    while index < segment.len()
        invariant
            index <= segment@.len(),
            segment@.len() == old(segment)@.len(),
            forall|j: int| 0 <= j < index ==> segment@[j] == color,
        decreases segment@.len() - index,
    {
        segment.set(index, color);
        index = index + 1;
    }
    proof {
        assert(final(segment)@ =~= Seq::new(old(segment)@.len(), |i: int| color));
    }
}


/// At the first frame and with anchor offset zero, the rotating fill paints
/// exactly the same segment as the static fill: the rotation shift at frame
/// zero is either nothing or the full supersampled range, and a full range
/// wraps back onto the same positions.
pub proof fn lemma_fill_rotate_matches_fill_at_origin(b: Background, seg: Seq<Color>)
    requires
        b.wf(),
        b.mode == Mode::FillRainbowRotate,
        b.offset == 0,
        b.frames.spec_current() == 0,
        1 <= seg.len() <= 65535,
    ensures
        Background::spec_painted_segment(b, seg) == Background::spec_painted_segment(
            Background { mode: Mode::FillRainbow, ..b },
            seg,
        ),
{
    let shifted_anchor = spec_shift_offset(b.offset, b.frames, b.direction);
    let t = b.frames.total as int;
    if b.frames.total == 0 {
        assert(shifted_anchor == 0);
    } else {
        match b.direction {
            Direction::Positive => {
                assert((65535int * 0) / t == 0) by {
                    vstd::arithmetic::div_mod::lemma_div_multiples_vanish(0, t);
                }
                assert(shifted_anchor == 0) by {
                    vstd::arithmetic::div_mod::lemma_small_mod(0nat, 0x10000nat);
                }
            },
            Direction::Stopped => {
                assert(shifted_anchor == 0) by {
                    vstd::arithmetic::div_mod::lemma_small_mod(0nat, 0x10000nat);
                }
            },
            Direction::Negative => {
                assert((65535int * t) / t == 65535) by {
                    vstd::arithmetic::div_mod::lemma_div_multiples_vanish(65535, t);
                }
                assert(shifted_anchor == 65535) by {
                    vstd::arithmetic::div_mod::lemma_small_mod(65535nat, 0x10000nat);
                }
            },
        }
    }
    // A shift of zero changes nothing; a shift of the whole range wraps every
    // LED position back onto itself.
    let len = seg.len() as int;
    assert forall|i: int| 0 <= i < len implies spec_fill_color(
        shifted_anchor,
        b.rainbow.backer,
        b.subdivisions as int,
        len,
        i,
    ) == spec_fill_color(0, b.rainbow.backer, b.subdivisions as int, len, i) by {
        let step = 65535int / len;
        let led_position = i * step;
        assert(0 <= led_position < 65535) by {
            vstd::arithmetic::div_mod::lemma_fundamental_div_mod(65535, len);
            assert(65535 == len * step + 65535int % len);
            assert(0 <= 65535int % len < len) by {
                vstd::arithmetic::div_mod::lemma_mod_bound(65535, len);
            }
            assert(0 <= i * step <= (len - 1) * step) by (nonlinear_arith)
                requires
                    0 <= i < len,
                    step >= 0,
            ;
            assert((len - 1) * step == len * step - step) by (nonlinear_arith);
            assert(step >= 1) by {
                vstd::arithmetic::div_mod::lemma_div_non_zero(65535, len);
            }
        }
        assert((led_position + 65535 - 0) % 65535 == led_position) by {
            vstd::arithmetic::div_mod::lemma_mod_add_multiples_vanish(led_position, 65535);
            vstd::arithmetic::div_mod::lemma_small_mod(led_position as nat, 65535nat);
        }
        if shifted_anchor == 65535 {
            assert((led_position + 65535 - 65535) % 65535 == led_position) by {
                vstd::arithmetic::div_mod::lemma_small_mod(led_position as nat, 65535nat);
            }
        }
    }
    assert(Background::spec_painted_segment(b, seg) =~= Background::spec_painted_segment(
        Background { mode: Mode::FillRainbow, ..b },
        seg,
    ));
}

} // verus!
