use vstd::prelude::*;

use crate::animations::{Direction, MAX_NUM_ACTIVE_TRIGGERS};
use crate::colors::Color;
use crate::utility::{
    calculate_fade_color, convert_ns_to_frames, shift_offset, spec_fade_color, spec_inc_n,
    spec_lerp, spec_ns_to_frames, spec_shift_offset, Progression, StatefulRainbow,
};

verus! {

/// The kinds of triggered animation effects. They can be mixed and matched
/// over any combination of foreground and background animations; their
/// colors override any foreground or background pixel data on the pixels
/// they touch.
#[derive(Copy, Clone, PartialEq, Eq, Structural, Debug)]
pub enum Mode {
    /// A fallback value without any trigger effect.
    NoTrigger,
    /// Forwards the trigger to the background layer's pending-trigger flag.
    Background,
    /// Forwards the trigger to the foreground layer's pending-trigger flag.
    Foreground,
    /// A pulse of a single color somewhere random along the segment, fading
    /// in and back out once; fade in and out times adjust separately.
    ColorPulse,
    /// A random pulse whose color samples the shared, slowly fading trigger
    /// color, so consecutive pulses drift through the palette together.
    ColorPulseFade,
    /// A random pulse that takes a new palette color on every trigger, in
    /// palette order.
    ColorPulseRainbow,
    /// A colored pulse that travels down the strip over the fade-in time;
    /// starting offset and direction can be set manually.
    ColorShot,
    /// A traveling pulse colored from the shared fading trigger color.
    ColorShotFade,
    /// A traveling pulse with a new palette color for each shot.
    ColorShotRainbow,
    /// Flashes the whole segment to a single color for a short time.
    Flash,
    /// A whole-segment flash colored from the shared fading trigger color.
    FlashFade,
    /// A whole-segment flash with a new palette color for each flash.
    FlashRainbow,
}

/// All triggers of an animation share a single palette and fade speed,
/// configured here.
#[derive(Clone)]
pub struct GlobalParameters {
    pub rainbow: Vec<Color>,
    pub is_rainbow_forward: bool,
    pub duration_ns: u64,
}

/// Everything needed to fire one trigger animation. Some fields have no
/// effect in some modes.
#[derive(Clone)]
pub struct Parameters {
    pub mode: Mode,
    pub direction: Direction,
    pub fade_in_time_ns: u64,
    pub fade_out_time_ns: u64,
    pub starting_offset: u16,
    pub pixels_per_pixel_group: usize,
}

/// The running state of one live trigger animation: its position, its frame
/// counter over the whole fade-in plus fade-out window, the frame where fade
/// in turns into fade out, and the color it paints.
#[derive(Copy, Clone, PartialEq, Eq, Structural, Debug)]
pub struct Trigger {
    pub offset: u16,
    pub frames: Progression,
    pub transition_frame: usize,
    pub direction: Direction,
    pub color: Color,
    pub mode: Mode,
    pub pixels_per_pixel_group: usize,
}

impl Trigger {
    /// Well-formedness: a sound frame counter inside interpolation range,
    /// the fade split point inside the window, and a bounded pulse width.
    pub open spec fn wf(self) -> bool {
        &&& self.frames.wf()
        &&& self.frames.is_forward
        &&& self.transition_frame <= self.frames.total
        &&& self.frames.total <= 0x00ff_ffff
        &&& self.pixels_per_pixel_group <= 65535
    }

    pub fn new(init: &Parameters, color: Color, frame_rate_hz: u32) -> (t: Self)
        requires
            init.fade_in_time_ns + init.fade_out_time_ns <= u64::MAX,
            (init.fade_in_time_ns + init.fade_out_time_ns) * frame_rate_hz <= u64::MAX,
            spec_ns_to_frames(
                (init.fade_in_time_ns + init.fade_out_time_ns) as u64,
                frame_rate_hz,
            ) <= 0x00ff_ffff,
            init.pixels_per_pixel_group <= 65535,
        ensures
            t == spec_new_trigger(*init, color, frame_rate_hz),
            t.wf(),
    {
        let offset = init.starting_offset;
        let total_duration_ns = init.fade_in_time_ns + init.fade_out_time_ns;

        let frames = convert_ns_to_frames(total_duration_ns, frame_rate_hz);
        let frames = Progression::new(frames);

        proof {
            assert(init.fade_in_time_ns * frame_rate_hz <= (init.fade_in_time_ns
                + init.fade_out_time_ns) * frame_rate_hz) by (nonlinear_arith)
                requires
                    init.fade_out_time_ns >= 0,
                    frame_rate_hz >= 0,
            ;
            vstd::arithmetic::div_mod::lemma_div_is_ordered(
                init.fade_in_time_ns * frame_rate_hz,
                (init.fade_in_time_ns + init.fade_out_time_ns) * frame_rate_hz,
                1_000_000_000,
            );
        }
        let transition_frame = convert_ns_to_frames(init.fade_in_time_ns, frame_rate_hz);
        let direction = init.direction;

        let pixels_per_pixel_group = init.pixels_per_pixel_group;

        Self {
            offset,
            frames,
            transition_frame,
            direction,
            color,
            mode: init.mode,
            pixels_per_pixel_group,
        }
    }

    /// One frame of this trigger: paint its effect over the segment (fade-in
    /// frames blend the segment toward the trigger color, fade-out frames
    /// blend back toward what the lower layers painted), then advance the
    /// frame counter. A trigger whose window is zero frames paints nothing.
    pub fn update(&mut self, segment: &mut Vec<Color>)
        requires
            old(self).wf(),
            1 <= old(segment)@.len() <= 65535,
        ensures
            *final(self) == spec_stepped_trigger(*old(self)),
            final(self).wf(),
            final(segment)@ == spec_trigger_painted(*old(self), old(segment)@),
            final(segment)@.len() == old(segment)@.len(),
    {
        if self.frames.total >= 1 {
            match self.mode {
                Mode::ColorPulse | Mode::ColorPulseFade | Mode::ColorPulseRainbow => {
                    color_pulse(self, segment);
                },
                Mode::ColorShot | Mode::ColorShotFade | Mode::ColorShotRainbow => {
                    color_shot(self, segment);
                },
                Mode::Flash | Mode::FlashFade | Mode::FlashRainbow => {
                    flash(self, segment);
                },
                _ => {},
            }
        }
        self.frames.increment();
    }
}

/// The trigger a set of parameters creates, before its mode's initializer
/// runs: positioned at the requested offset, with a frame window covering
/// the fade-in plus fade-out time and the split point after the fade-in.
pub open spec fn spec_new_trigger(init: Parameters, color: Color, frame_rate_hz: u32) -> Trigger {
    Trigger {
        offset: init.starting_offset,
        frames: Progression {
            current: 0,
            total: spec_ns_to_frames(
                (init.fade_in_time_ns + init.fade_out_time_ns) as u64,
                frame_rate_hz,
            ) as usize,
            is_forward: true,
        },
        transition_frame: spec_ns_to_frames(init.fade_in_time_ns, frame_rate_hz) as usize,
        direction: init.direction,
        color,
        mode: init.mode,
        pixels_per_pixel_group: init.pixels_per_pixel_group,
    }
}

/// The fade progress of a trigger at its current frame: before the
/// transition frame it is a forward counter over the fade-in window,
/// afterwards a reversed counter over the fade-out window, so interpolating
/// by it fades in and then back out.
pub open spec fn spec_fade_progress(t: Trigger) -> Progression {
    let cur = t.frames.spec_current();
    if cur < t.transition_frame {
        let p = Progression { current: 0, total: t.transition_frame, is_forward: true };
        if t.transition_frame <= 1 {
            p
        } else {
            Progression { current: (cur % (t.transition_frame as int)) as usize, ..p }
        }
    } else {
        let fade_out_total = (t.frames.total - t.transition_frame) as usize;
        let p = Progression { current: 0, total: fade_out_total, is_forward: false };
        if fade_out_total <= 1 {
            p
        } else {
            Progression {
                current: ((cur - t.transition_frame) % (fade_out_total as int)) as usize,
                ..p
            }
        }
    }
}

/// Builds the interpolation counter for a trigger's current frame; see
/// `spec_fade_progress`.
fn get_trigger_fade_progress(trigger: &Trigger) -> (p: Progression)
    requires
        trigger.wf(),
        trigger.frames.total >= 1,
    ensures
        p == spec_fade_progress(*trigger),
        p.wf(),
        1 <= p.total <= 0x00ff_ffff,
{
    let cur = trigger.frames.get_current();
    let is_fade_in = cur < trigger.transition_frame;

    let mut progress: Progression;
    let mut transition_frame: usize = 0;
    if is_fade_in {
        progress = Progression::new(trigger.transition_frame);
    } else {
        progress = Progression::new(trigger.frames.total - trigger.transition_frame);
        progress.reverse_direction();
        transition_frame = trigger.transition_frame;
    }

    progress.set_current(cur - transition_frame);
    progress
}

/// A trigger after one update: only its frame counter has moved.
pub open spec fn spec_stepped_trigger(t: Trigger) -> Trigger {
    Trigger { frames: t.frames.spec_inc(), ..t }
}

/// Whether a trigger (already stepped) stays in the collection: it is
/// retained until its counter reaches the terminal frame of its window.
pub open spec fn spec_trigger_live(t: Trigger) -> bool {
    t.frames.spec_current() + 1 < t.frames.total
}

/// The whole-segment flash paint: every pixel is interpolated between what
/// the lower layers painted and the trigger color, by the fade progress.
pub open spec fn spec_flash_painted(t: Trigger, seg: Seq<Color>) -> Seq<Color> {
    let p = spec_fade_progress(t);
    Seq::new(seg.len(), |i: int| spec_lerp(seg[i], t.color, p.spec_current(), p.total as int))
}

/// The pulse paint after its first `k` pixels: a run of pixels starting at
/// the offset's bucket, each blended toward the trigger color by the fade
/// progress, wrapping around the segment end.
pub open spec fn spec_pulse_painted_upto(t: Trigger, seg: Seq<Color>, k: nat) -> Seq<Color>
    decreases k,
{
    if k == 0 {
        seg
    } else {
        let prev = spec_pulse_painted_upto(t, seg, (k - 1) as nat);
        let p = spec_fade_progress(t);
        let first = (t.offset as int) / (seg.len() as int);
        let idx = (first + k - 1) % (seg.len() as int);
        prev.update(idx, spec_lerp(prev[idx], t.color, p.spec_current(), p.total as int))
    }
}

/// The width of a pulse or shot: at least one pixel, up to the trigger's
/// pixel group width.
pub open spec fn spec_shot_width(t: Trigger) -> nat {
    if t.pixels_per_pixel_group >= 1 {
        t.pixels_per_pixel_group as nat
    } else {
        1
    }
}

/// The full pulse paint.
pub open spec fn spec_pulse_painted(t: Trigger, seg: Seq<Color>) -> Seq<Color> {
    spec_pulse_painted_upto(t, seg, spec_shot_width(t))
}

/// The shot paint after its first `k` pixels: the shot's current position
/// advances with the frame counter in the trigger's direction, and the run
/// of pixels there is overwritten with the trigger color.
pub open spec fn spec_shot_painted_upto(t: Trigger, seg: Seq<Color>, k: nat) -> Seq<Color>
    decreases k,
{
    if k == 0 {
        seg
    } else {
        let prev = spec_shot_painted_upto(t, seg, (k - 1) as nat);
        let first = spec_shift_offset(t.offset, t.frames, t.direction) / (65535int / (
        seg.len() as int));
        let idx = (first + k - 1) % (seg.len() as int);
        prev.update(idx, t.color)
    }
}

/// The full shot paint.
pub open spec fn spec_shot_painted(t: Trigger, seg: Seq<Color>) -> Seq<Color> {
    spec_shot_painted_upto(t, seg, spec_shot_width(t))
}

/// What one trigger update paints: pulses blend a short run at a fixed
/// position, shots stamp a traveling run, flashes blend the whole segment;
/// the forwarding and no-op modes, and triggers with an empty frame window,
/// paint nothing.
pub open spec fn spec_trigger_painted(t: Trigger, seg: Seq<Color>) -> Seq<Color> {
    if t.frames.total == 0 {
        seg
    } else {
        match t.mode {
            Mode::ColorPulse | Mode::ColorPulseFade | Mode::ColorPulseRainbow => spec_pulse_painted(
                t,
                seg,
            ),
            Mode::ColorShot | Mode::ColorShotFade | Mode::ColorShotRainbow => spec_shot_painted(
                t,
                seg,
            ),
            Mode::Flash | Mode::FlashFade | Mode::FlashRainbow => spec_flash_painted(t, seg),
            _ => seg,
        }
    }
}

/// Paints a whole-segment flash; see `spec_flash_painted`.
fn flash(trigger: &Trigger, segment: &mut Vec<Color>)
    requires
        trigger.wf(),
        trigger.frames.total >= 1,
        1 <= old(segment)@.len() <= 65535,
    ensures
        final(segment)@ == spec_flash_painted(*trigger, old(segment)@),
{
    let progress = get_trigger_fade_progress(trigger);

    let mut i: usize = 0;
    while i < segment.len()
        invariant
            trigger.wf(),
            progress == spec_fade_progress(*trigger),
            progress.wf(),
            1 <= progress.total <= 0x00ff_ffff,
            i <= segment@.len(),
            segment@.len() == old(segment)@.len(),
            forall|j: int|
                0 <= j < i ==> segment@[j] == spec_lerp(
                    old(segment)@[j],
                    trigger.color,
                    spec_fade_progress(*trigger).spec_current(),
                    spec_fade_progress(*trigger).total as int,
                ),
            forall|j: int| i <= j < segment@.len() ==> segment@[j] == old(segment)@[j],
        decreases segment@.len() - i,
    {
        let led = segment[i];
        segment.set(i, led.lerp_with(trigger.color, progress));
        i = i + 1;
    }
    proof {
        assert(final(segment)@ =~= spec_flash_painted(*trigger, old(segment)@));
    }
}

/// Paints a stationary pulse; see `spec_pulse_painted`. The run is always at
/// least one pixel, up to `pixels_per_pixel_group` pixels, wrapping around
/// the segment end.
fn color_pulse(trigger: &Trigger, segment: &mut Vec<Color>)
    requires
        trigger.wf(),
        trigger.frames.total >= 1,
        1 <= old(segment)@.len() <= 65535,
    ensures
        final(segment)@ == spec_pulse_painted(*trigger, old(segment)@),
        final(segment)@.len() == old(segment)@.len(),
{
    let progress = get_trigger_fade_progress(trigger);

    let len = segment.len();
    let first_led_index = trigger.offset as usize / len;
    let shot_width = if trigger.pixels_per_pixel_group >= 1 {
        trigger.pixels_per_pixel_group
    } else {
        1
    };

    let mut k: usize = 0;
    while k < shot_width
        invariant
            trigger.wf(),
            progress == spec_fade_progress(*trigger),
            progress.wf(),
            1 <= progress.total <= 0x00ff_ffff,
            len == segment@.len(),
            1 <= len <= 65535,
            segment@.len() == old(segment)@.len(),
            first_led_index == (trigger.offset as int) / (old(segment)@.len() as int),
            first_led_index <= 65535,
            shot_width == spec_shot_width(*trigger),
            shot_width <= 65535,
            k <= shot_width,
            segment@ == spec_pulse_painted_upto(*trigger, old(segment)@, k as nat),
        decreases shot_width - k,
    {
        let index = first_led_index + k;
        let corrected_index = index % len;
        let led = segment[corrected_index];
        segment.set(corrected_index, led.lerp_with(trigger.color, progress));
        k = k + 1;
    }
}

/// Paints a traveling shot; see `spec_shot_painted`: the run position is the
/// starting offset shifted by the elapsed fraction of the frame window.
fn color_shot(trigger: &Trigger, segment: &mut Vec<Color>)
    requires
        trigger.wf(),
        trigger.frames.total >= 1,
        1 <= old(segment)@.len() <= 65535,
    ensures
        final(segment)@ == spec_shot_painted(*trigger, old(segment)@),
        final(segment)@.len() == old(segment)@.len(),
{
    let len = segment.len();
    let current_offset = shift_offset(trigger.offset, trigger.frames, trigger.direction) as usize;
    let offset_distance_between_leds = 65535 / len;
    proof {
        vstd::arithmetic::div_mod::lemma_div_non_zero(65535, len as int);
    }

    let first_led_index = current_offset / offset_distance_between_leds;
    let shot_width = if trigger.pixels_per_pixel_group >= 1 {
        trigger.pixels_per_pixel_group
    } else {
        1
    };

    let mut k: usize = 0;
    while k < shot_width
        invariant
            trigger.wf(),
            len == segment@.len(),
            1 <= len <= 65535,
            segment@.len() == old(segment)@.len(),
            first_led_index == spec_shift_offset(trigger.offset, trigger.frames, trigger.direction)
                / (65535int / (old(segment)@.len() as int)),
            first_led_index <= 65535,
            shot_width == spec_shot_width(*trigger),
            shot_width <= 65535,
            k <= shot_width,
            segment@ == spec_shot_painted_upto(*trigger, old(segment)@, k as nat),
        decreases shot_width - k,
    {
        let index = first_led_index + k;
        let corrected_index = index % len;
        segment.set(corrected_index, trigger.color);
        k = k + 1;
    }
}

/// Holds all live triggers plus the state every trigger shares: the fading
/// cursor sampled by the "fade" flavors, the stepping cursor advanced by the
/// "rainbow" flavors, and the shared fade duration counter.
pub struct TriggerCollection {
    pub fade_rainbow: StatefulRainbow,
    pub incremental_rainbow: StatefulRainbow,
    pub frames: Progression,
    pub triggers: Vec<Trigger>,
}

/// The retained triggers after one collection update over the first `n`
/// entries: each trigger's counter is stepped, and only those short of their
/// terminal frame stay, in order.
pub open spec fn spec_retained(ts: Seq<Trigger>, n: int) -> Seq<Trigger>
    decreases n,
{
    if n <= 0 {
        Seq::empty()
    } else {
        let prev = spec_retained(ts, n - 1);
        let t = spec_stepped_trigger(ts[n - 1]);
        if spec_trigger_live(t) {
            prev.push(t)
        } else {
            prev
        }
    }
}

/// The segment after the first `n` triggers have painted over it, in order;
/// later triggers see (and blend with) what earlier ones painted.
pub open spec fn spec_collection_painted(ts: Seq<Trigger>, seg: Seq<Color>, n: int) -> Seq<Color>
    decreases n,
{
    if n <= 0 {
        seg
    } else {
        spec_trigger_painted(ts[n - 1], spec_collection_painted(ts, seg, n - 1))
    }
}

impl TriggerCollection {
    pub open spec fn wf(self) -> bool {
        &&& self.fade_rainbow.wf()
        &&& self.incremental_rainbow.wf()
        &&& self.frames.wf()
        &&& self.frames.total <= 0x00ff_ffff
        &&& self.triggers@.len() <= MAX_NUM_ACTIVE_TRIGGERS
        &&& forall|i: int| 0 <= i < self.triggers@.len() ==> (#[trigger] self.triggers@[i]).wf()
    }

    /// The shared state after a "rainbow" flavor advances it: the stepping
    /// cursor moves to the next color and the shared duration counter
    /// restarts.
    pub open spec fn spec_advanced(self) -> TriggerCollection {
        TriggerCollection {
            incremental_rainbow: StatefulRainbow {
                position: self.incremental_rainbow.position.spec_inc(),
                ..self.incremental_rainbow
            },
            frames: Progression { current: 0, ..self.frames },
            ..self
        }
    }

    /// Whether `self` is exactly the state `new` builds from `init` at the
    /// given frame rate: both shared cursors at the palette's first color,
    /// the shared duration converted to frames, and no live triggers.
    pub open spec fn spec_matches_new(self, init: GlobalParameters, frame_rate_hz: u32) -> bool {
        &&& self.fade_rainbow.backer.backer@ == init.rainbow@
        &&& self.fade_rainbow.backer.is_forward == init.is_rainbow_forward
        &&& self.fade_rainbow.position == (Progression {
            current: 0,
            total: init.rainbow@.len() as usize,
            is_forward: true,
        })
        &&& self.incremental_rainbow.backer.backer@ == init.rainbow@
        &&& self.incremental_rainbow.backer.is_forward == init.is_rainbow_forward
        &&& self.incremental_rainbow.position == self.fade_rainbow.position
        &&& self.frames == (Progression {
            current: 0,
            total: spec_ns_to_frames(init.duration_ns, frame_rate_hz) as usize,
            is_forward: true,
        })
        &&& self.triggers@ == Seq::<Trigger>::empty()
    }

    /// The machine limits `new` needs.
    pub open spec fn spec_params_ok(init: GlobalParameters, frame_rate_hz: u32) -> bool {
        &&& init.rainbow@.len() >= 1
        &&& init.duration_ns * frame_rate_hz <= u64::MAX
        &&& spec_ns_to_frames(init.duration_ns, frame_rate_hz) <= 0x00ff_ffff
    }

    pub fn new(init: &GlobalParameters, frame_rate_hz: u32) -> (c: Self)
        requires
            Self::spec_params_ok(*init, frame_rate_hz),
        ensures
            c.spec_matches_new(*init, frame_rate_hz),
            c.wf(),
    {
        let fade_rainbow = StatefulRainbow::new(init.rainbow.as_slice(), init.is_rainbow_forward);
        let incremental_rainbow = StatefulRainbow::new(
            init.rainbow.as_slice(),
            init.is_rainbow_forward,
        );
        let frames = Progression::new(convert_ns_to_frames(init.duration_ns, frame_rate_hz));
        let triggers: Vec<Trigger> = Vec::new();

        Self { fade_rainbow, incremental_rainbow, frames, triggers }
    }

    /// Advances the stepping cursor and restarts the shared duration
    /// counter; the "rainbow" trigger flavors call this once per trigger so
    /// that successive triggers walk the palette in order.
    fn advance_rainbow_color(&mut self)
        requires
            old(self).wf(),
        ensures
            *final(self) == old(self).spec_advanced(),
            final(self).wf(),
    {
        self.incremental_rainbow.increment();
        self.frames.reset();
    }

    /// The color a new trigger starts from, before its mode's initializer
    /// runs: the stepping cursor's current color.
    pub open spec fn spec_default_trigger_color(self) -> Color {
        self.incremental_rainbow.spec_current_color()
    }

    /// The trigger a mode's initializer leaves behind: pulses and flashes
    /// stop in place (pulses at the supplied random position), the "fade"
    /// flavors sample the shared fading color, and the "rainbow" flavors
    /// take the stepping cursor's current color.
    pub open spec fn spec_initialized_trigger(self, t0: Trigger, random_offset: u16) -> Trigger {
        match t0.mode {
            Mode::ColorPulse => Trigger {
                direction: Direction::Stopped,
                offset: random_offset,
                ..t0
            },
            Mode::ColorPulseFade => Trigger {
                color: spec_fade_color(self.fade_rainbow, self.frames),
                direction: Direction::Stopped,
                offset: random_offset,
                ..t0
            },
            Mode::ColorPulseRainbow => Trigger {
                color: self.incremental_rainbow.spec_current_color(),
                direction: Direction::Stopped,
                offset: random_offset,
                ..t0
            },
            Mode::ColorShot => t0,
            Mode::ColorShotFade => Trigger {
                color: spec_fade_color(self.fade_rainbow, self.frames),
                ..t0
            },
            Mode::ColorShotRainbow => Trigger {
                color: self.incremental_rainbow.spec_current_color(),
                ..t0
            },
            Mode::Flash => Trigger { direction: Direction::Stopped, ..t0 },
            Mode::FlashFade => Trigger {
                direction: Direction::Stopped,
                color: spec_fade_color(self.fade_rainbow, self.frames),
                ..t0
            },
            Mode::FlashRainbow => Trigger {
                direction: Direction::Stopped,
                color: self.incremental_rainbow.spec_current_color(),
                ..t0
            },
            _ => t0,
        }
    }

    /// The shared state after a mode's initializer ran: the "rainbow"
    /// flavors advance the stepping cursor, the others leave everything.
    pub open spec fn spec_after_init(self, mode: Mode) -> TriggerCollection {
        match mode {
            Mode::ColorPulseRainbow | Mode::ColorShotRainbow | Mode::FlashRainbow => self
                .spec_advanced(),
            _ => self,
        }
    }

    /// Creates a trigger from the parameters, runs its mode's initializer
    /// against the shared state, and adds it to the collection. When the
    /// collection is already at capacity the new trigger is silently
    /// dropped: rendering goes on uninterrupted, and the shared cursors
    /// still advance exactly as if the trigger had fit.
    pub fn add_trigger(&mut self, init: &Parameters, frame_rate_hz: u32, random_offset: u16)
        requires
            old(self).wf(),
            init.fade_in_time_ns + init.fade_out_time_ns <= u64::MAX,
            (init.fade_in_time_ns + init.fade_out_time_ns) * frame_rate_hz <= u64::MAX,
            spec_ns_to_frames(
                (init.fade_in_time_ns + init.fade_out_time_ns) as u64,
                frame_rate_hz,
            ) <= 0x00ff_ffff,
            init.pixels_per_pixel_group <= 65535,
        ensures
            final(self).wf(),
            final(self).fade_rainbow == old(self).fade_rainbow,
            final(self).incremental_rainbow == old(self).spec_after_init(
                init.mode,
            ).incremental_rainbow,
            final(self).frames == old(self).spec_after_init(init.mode).frames,
            final(self).triggers@ == if old(self).triggers@.len() < MAX_NUM_ACTIVE_TRIGGERS {
                old(self).triggers@.push(
                    old(self).spec_initialized_trigger(
                        spec_new_trigger(
                            *init,
                            old(self).spec_default_trigger_color(),
                            frame_rate_hz,
                        ),
                        random_offset,
                    ),
                )
            } else {
                old(self).triggers@
            },
            old(self).triggers@.len() == MAX_NUM_ACTIVE_TRIGGERS ==> final(self).triggers@ == old(
                self,
            ).triggers@,
    {
        let default_color = self.incremental_rainbow.current_color();
        let mut new_trigger = Trigger::new(init, default_color, frame_rate_hz);

        match init.mode {
            Mode::ColorPulse => {
                new_trigger.direction = Direction::Stopped;
                new_trigger.offset = random_offset;
            },
            Mode::ColorPulseFade => {
                new_trigger.color = calculate_fade_color(&self.fade_rainbow, &self.frames);
                new_trigger.direction = Direction::Stopped;
                new_trigger.offset = random_offset;
            },
            Mode::ColorPulseRainbow => {
                new_trigger.color = self.incremental_rainbow.current_color();
                new_trigger.direction = Direction::Stopped;
                new_trigger.offset = random_offset;
                self.advance_rainbow_color();
            },
            Mode::ColorShot => {},
            Mode::ColorShotFade => {
                new_trigger.color = calculate_fade_color(&self.fade_rainbow, &self.frames);
            },
            Mode::ColorShotRainbow => {
                new_trigger.color = self.incremental_rainbow.current_color();
                self.advance_rainbow_color();
            },
            Mode::Flash => {
                new_trigger.direction = Direction::Stopped;
            },
            Mode::FlashFade => {
                new_trigger.direction = Direction::Stopped;
                new_trigger.color = calculate_fade_color(&self.fade_rainbow, &self.frames);
            },
            Mode::FlashRainbow => {
                new_trigger.direction = Direction::Stopped;
                new_trigger.color = self.incremental_rainbow.current_color();
                self.advance_rainbow_color();
            },
            _ => {},
        }

        if self.triggers.len() < MAX_NUM_ACTIVE_TRIGGERS {
            self.triggers.push(new_trigger);
        }
    }

    /// One frame of the trigger layer: every live trigger paints over the
    /// segment in order, expired triggers are dropped, and the shared fade
    /// counter advances (moving the fading cursor along when it wraps).
    pub fn update(&mut self, segment: &mut Vec<Color>)
        requires
            old(self).wf(),
            1 <= old(segment)@.len() <= 65535,
        ensures
            final(self).wf(),
            final(self).triggers@ == spec_retained(
                old(self).triggers@,
                old(self).triggers@.len() as int,
            ),
            final(self).frames == old(self).frames.spec_inc(),
            final(self).fade_rainbow == if old(self).frames.spec_inc_rolls() {
                (StatefulRainbow {
                    position: old(self).fade_rainbow.position.spec_inc(),
                    ..old(self).fade_rainbow
                })
            } else {
                old(self).fade_rainbow
            },
            final(self).incremental_rainbow == old(self).incremental_rainbow,
            final(segment)@ == spec_collection_painted(
                old(self).triggers@,
                old(segment)@,
                old(self).triggers@.len() as int,
            ),
            final(segment)@.len() == old(segment)@.len(),
    {
        let n = self.triggers.len();
        let mut retained: Vec<Trigger> = Vec::new();
        let mut i: usize = 0;
        while i < n
            invariant
                old(self).wf(),
                self.triggers@ == old(self).triggers@,
                n == self.triggers@.len(),
                i <= n,
                retained@ == spec_retained(old(self).triggers@, i as int),
                retained@.len() <= i,
                forall|j: int| 0 <= j < retained@.len() ==> (#[trigger] retained@[j]).wf(),
                segment@ == spec_collection_painted(old(self).triggers@, old(segment)@, i as int),
                segment@.len() == old(segment)@.len(),
                1 <= segment@.len() <= 65535,
            decreases n - i,
        {
            let mut t = self.triggers[i];
            t.update(segment);
            let cur = t.frames.get_current();
            if cur + 1 < t.frames.total {
                retained.push(t);
            }
            i = i + 1;
        }
        self.triggers = retained;

        let did_roll = self.frames.checked_increment();
        if did_roll {
            self.fade_rainbow.increment();
        }
    }
}

/// The state of a trigger after `k` collection updates it survived.
pub open spec fn spec_trigger_after_updates(t: Trigger, k: nat) -> Trigger {
    Trigger { frames: spec_inc_n(t.frames, k), ..t }
}

/// Trigger lifecycle: a freshly created trigger whose window is `F` frames
/// survives the retention check of update `k` exactly while `k + 1 < F`, so
/// it is present in the collection for the first `F - 1` updates and absent
/// thereafter. A window of one (or zero) frames is dropped by its first
/// update.
pub proof fn lemma_trigger_lifecycle(t: Trigger, k: nat)
    requires
        t.wf(),
        t.frames.current == 0,
        1 <= k,
        k < t.frames.total || (t.frames.total <= 1 && k == 1),
    ensures
        spec_trigger_live(spec_trigger_after_updates(t, k)) <==> k + 1 < t.frames.total,
{
    if t.frames.total <= 1 {
        assert(spec_inc_n(t.frames, 1) == t.frames.spec_inc()) by {
            reveal_with_fuel(spec_inc_n, 2);
        }
    } else {
        crate::utility::lemma_inc_n_closed_form(t.frames, k);
        let after = spec_trigger_after_updates(t, k);
        assert(after.frames.current == (0 + k as int) % (t.frames.total as int));
        vstd::arithmetic::div_mod::lemma_small_mod(k, t.frames.total as nat);
        assert(after.frames.current == k);
    }
}

} // verus!
