use vstd::prelude::*;

use crate::background::{self, Background};
use crate::colors::Color;
use crate::foreground::{self, Foreground};
use crate::utility::spec_ns_to_frames;
use crate::trigger::TriggerCollection;

verus! {


/// The widest offset value used by rotating animations: positions along a
/// segment are supersampled over `0..=MAX_OFFSET` so that even short strips
/// can place gradients with sub-pixel resolution.
pub const MAX_OFFSET: u16 = 65535;

/// The most triggered effects that can run at the same time on one
/// animation; adding another while the collection is full is a silent no-op.
pub const MAX_NUM_ACTIVE_TRIGGERS: usize = 10;

/// Denotes the direction of animations; effects vary depending on animation
/// modes.
#[derive(Copy, Clone, PartialEq, Eq, Structural, Debug)]
pub enum Direction {
    Positive,
    Stopped,
    Negative,
}

/// Denotes the main layers of an animation: background, foreground, or
/// trigger.
#[derive(Copy, Clone, PartialEq, Eq, Structural, Debug)]
pub enum AnimationType {
    Background,
    Foreground,
    Trigger,
}


/// This holds the parameters that define everything needed to set up an
/// animation: the foreground, the background, and the global trigger
/// settings.
pub struct AnimationParameters {
    pub bg: background::Parameters,
    pub fg: foreground::Parameters,
    pub trigger: crate::trigger::GlobalParameters,
}

/// Declares rand's `SmallRng` so that an animation can own its random
/// number generator; the generator's state is opaque to the contracts.
#[verifier::external_type_specification]
#[verifier::external_body]
pub struct ExSmallRng(rand::rngs::SmallRng);

/// Relies on rand's `SmallRng::seed_from_u64`: builds a generator from a
/// seed; nothing is assumed about the generator it returns.
#[verifier::external_body]
fn rng_from_seed(seed: u64) -> rand::rngs::SmallRng {
    <rand::rngs::SmallRng as rand::SeedableRng>::seed_from_u64(seed)
}

/// Relies on rand's `RngCore::next_u32` for `SmallRng`: returns an
/// arbitrary 32-bit value; nothing is promised of it.
#[verifier::external_body]
fn next_random_u32(rng: &mut rand::rngs::SmallRng) -> u32 {
    <rand::rngs::SmallRng as rand::RngCore>::next_u32(rng)
}

/// Draws a random animation offset: an arbitrary position strictly inside
/// the supersampled range.
fn random_offset_value(rng: &mut rand::rngs::SmallRng) -> (r: u16)
    ensures
        r < 65535,
{
    (next_random_u32(rng) % 65535) as u16
}

/// One segment's full animation state: the three layers, the scratch color
/// segment they paint into, the array translating segment indices to strip
/// buffer indices, and the generator feeding the random effects.
pub struct Animation {
    pub translation_array: Vec<usize>,
    pub segment: Vec<Color>,
    pub fg_state: Foreground,
    pub bg_state: Background,
    pub triggers: TriggerCollection,
    pub random_number_generator: rand::rngs::SmallRng,
}

impl Animation {
    /// Well-formedness: one scratch pixel per translation entry, a segment
    /// the layer arithmetic can handle, and sound layer states.
    pub open spec fn wf(self) -> bool {
        &&& self.segment@.len() == self.translation_array@.len()
        &&& 1 <= self.segment@.len() <= 65535
        &&& self.bg_state.wf()
        &&& self.fg_state.wf()
        &&& self.triggers.wf()
    }

    /// How one `update` call changes the animation, given the random offset
    /// `rnd` that was drawn: background, foreground and triggers each take
    /// their step, and the segment is painted by the three layers in that
    /// fixed order.
    pub open spec fn spec_stepped_with(pre: Animation, post: Animation, rnd: u16) -> bool {
        &&& post.bg_state == pre.bg_state.spec_step_state(rnd)
        &&& post.fg_state == pre.fg_state.spec_step_state(pre.segment@.len() as int)
        &&& post.triggers.triggers@ == crate::trigger::spec_retained(
            pre.triggers.triggers@,
            pre.triggers.triggers@.len() as int,
        )
        &&& post.triggers.frames == pre.triggers.frames.spec_inc()
        &&& post.triggers.incremental_rainbow == pre.triggers.incremental_rainbow
        &&& post.segment@ == crate::trigger::spec_collection_painted(
            pre.triggers.triggers@,
            pre.fg_state.spec_step_segment(
                pre.bg_state.spec_step_segment(pre.segment@, rnd),
            ),
            pre.triggers.triggers@.len() as int,
        )
        &&& post.translation_array@ == pre.translation_array@
    }

    /// One update took place, with some drawn random offset.
    pub open spec fn spec_stepped(pre: Animation, post: Animation) -> bool {
        exists|rnd: u16| Self::spec_stepped_with(pre, post, rnd)
    }

    pub fn new(
        parameters: &AnimationParameters,
        translation_array: Vec<usize>,
        frame_rate_hz: u32,
        random_seed: u64,
    ) -> (a: Self)
        requires
            1 <= translation_array@.len() <= 65535,
            Background::spec_params_ok(parameters.bg, frame_rate_hz),
            Foreground::spec_params_ok(parameters.fg, frame_rate_hz),
            TriggerCollection::spec_params_ok(parameters.trigger, frame_rate_hz),
        ensures
            a.translation_array == translation_array,
            a.segment@ == Seq::new(
                translation_array@.len(),
                |i: int| Color { r: 0, g: 0, b: 0 },
            ),
            a.bg_state.spec_matches_new(parameters.bg, frame_rate_hz),
            a.fg_state.spec_matches_new(parameters.fg, frame_rate_hz),
            a.triggers.spec_matches_new(parameters.trigger, frame_rate_hz),
            a.wf(),
    {
        let n = translation_array.len();
        let mut segment: Vec<Color> = Vec::new();
        let mut i: usize = 0;
        while i < n
            invariant
                i <= n,
                segment@.len() == i,
                forall|j: int| 0 <= j < i ==> segment@[j] == (Color { r: 0, g: 0, b: 0 }),
            decreases n - i,
        {
            segment.push(Color::default());
            i = i + 1;
        }
        proof {
            assert(segment@ =~= Seq::new(
                translation_array@.len(),
                |j: int| Color { r: 0, g: 0, b: 0 },
            ));
        }
        let fg_state = Foreground::new(&parameters.fg, frame_rate_hz);
        let bg_state = Background::new(&parameters.bg, frame_rate_hz);
        let triggers = TriggerCollection::new(&parameters.trigger, frame_rate_hz);
        let random_number_generator = rng_from_seed(random_seed);

        Animation {
            translation_array,
            segment,
            fg_state,
            bg_state,
            triggers,
            random_number_generator,
        }
    }

    /// One frame of this animation: paints the background, the foreground
    /// over it, then the live triggers over that, in that fixed order; each
    /// layer also takes its own state step. The random offset consumed by a
    /// triggered background fill is drawn here.
    pub fn update(&mut self)
        requires
            old(self).wf(),
        ensures
            Self::spec_stepped(*old(self), *final(self)),
            final(self).wf(),
            final(self).segment@.len() == old(self).segment@.len(),
            final(self).translation_array@ == old(self).translation_array@,
    {
        let ghost pre = *self;
        let rnd = random_offset_value(&mut self.random_number_generator);
        self.bg_state.update(&mut self.segment, rnd);
        self.fg_state.update(&mut self.segment);
        self.triggers.update(&mut self.segment);
        proof {
            assert(Self::spec_stepped_with(pre, *self, rnd));
        }
    }

    /// Applies a set of trigger parameters: the forwarding modes set the
    /// background or foreground pending flag, the no-op mode does nothing,
    /// and every other mode starts a one-shot trigger animation (drawing the
    /// random position a pulse starts at).
    pub fn trigger(&mut self, params: &crate::trigger::Parameters, frame_rate_hz: u32)
        requires
            old(self).wf(),
            params.fade_in_time_ns + params.fade_out_time_ns <= u64::MAX,
            (params.fade_in_time_ns + params.fade_out_time_ns) * frame_rate_hz <= u64::MAX,
            spec_ns_to_frames(
                (params.fade_in_time_ns + params.fade_out_time_ns) as u64,
                frame_rate_hz,
            ) <= 0x00ff_ffff,
            params.pixels_per_pixel_group <= 65535,
        ensures
            final(self).wf(),
            Self::spec_trigger_applied(*old(self), *final(self), *params, frame_rate_hz),
    {
        let rnd = random_offset_value(&mut self.random_number_generator);
        match params.mode {
            crate::trigger::Mode::NoTrigger => {},
            crate::trigger::Mode::Background => {
                self.bg_state.has_been_triggered = true;
            },
            crate::trigger::Mode::Foreground => {
                self.fg_state.has_been_triggered = true;
            },
            _ => {
                self.triggers.add_trigger(params, frame_rate_hz, rnd);
            },
        }
        proof {
            assert(Self::spec_trigger_applied_with(
                *old(self),
                *self,
                *params,
                frame_rate_hz,
                rnd,
            ));
        }
    }

    /// Sets the background or foreground offset directly; triggers do not
    /// use external offsets, so that layer ignores the call.
    pub fn set_offset(&mut self, a_type: AnimationType, offset: u16)
        ensures
            *final(self) == match a_type {
                AnimationType::Background => (Animation {
                    bg_state: (Background { offset, ..old(self).bg_state }),
                    ..*old(self)
                }),
                AnimationType::Foreground => (Animation {
                    fg_state: (Foreground { offset, ..old(self).fg_state }),
                    ..*old(self)
                }),
                AnimationType::Trigger => *old(self),
            },
            old(self).wf() ==> final(self).wf(),
    {
        match a_type {
            AnimationType::Background => {
                self.bg_state.offset = offset;
            },
            AnimationType::Foreground => {
                self.fg_state.offset = offset;
            },
            AnimationType::Trigger => {
                // Triggers don't use offsets, so do nothing until they need
                // to.
            },
        }
    }

    /// The scratch segment the layers painted last frame.
    pub fn segment(&self) -> (r: &Vec<Color>)
        ensures
            r@ == self.segment@,
    {
        &self.segment
    }

    /// The array mapping segment indices to strip buffer indices.
    pub fn translation_array(&self) -> (r: &Vec<usize>)
        ensures
            r@ == self.translation_array@,
    {
        &self.translation_array
    }

    /// How one `trigger` call changes the animation, given the random pulse
    /// position `rnd` that was drawn.
    pub open spec fn spec_trigger_applied_with(
        pre: Animation,
        post: Animation,
        params: crate::trigger::Parameters,
        frame_rate_hz: u32,
        rnd: u16,
    ) -> bool {
        match params.mode {
            crate::trigger::Mode::NoTrigger => {
                &&& post.bg_state == pre.bg_state
                &&& post.fg_state == pre.fg_state
                &&& post.triggers == pre.triggers
                &&& post.segment == pre.segment
                &&& post.translation_array == pre.translation_array
            },
            crate::trigger::Mode::Background => {
                &&& post.bg_state == (Background { has_been_triggered: true, ..pre.bg_state })
                &&& post.fg_state == pre.fg_state
                &&& post.triggers == pre.triggers
                &&& post.segment == pre.segment
                &&& post.translation_array == pre.translation_array
            },
            crate::trigger::Mode::Foreground => {
                &&& post.bg_state == pre.bg_state
                &&& post.fg_state == (Foreground { has_been_triggered: true, ..pre.fg_state })
                &&& post.triggers == pre.triggers
                &&& post.segment == pre.segment
                &&& post.translation_array == pre.translation_array
            },
            _ => {
                &&& post.bg_state == pre.bg_state
                &&& post.fg_state == pre.fg_state
                &&& post.segment@ == pre.segment@
                &&& post.translation_array@ == pre.translation_array@
                &&& post.triggers.fade_rainbow == pre.triggers.fade_rainbow
                &&& post.triggers.incremental_rainbow == pre.triggers.spec_after_init(
                    params.mode,
                ).incremental_rainbow
                &&& post.triggers.frames == pre.triggers.spec_after_init(params.mode).frames
                &&& post.triggers.triggers@ == if pre.triggers.triggers@.len()
                    < MAX_NUM_ACTIVE_TRIGGERS {
                    pre.triggers.triggers@.push(
                        pre.triggers.spec_initialized_trigger(
                            crate::trigger::spec_new_trigger(
                                params,
                                pre.triggers.spec_default_trigger_color(),
                                frame_rate_hz,
                            ),
                            rnd,
                        ),
                    )
                } else {
                    pre.triggers.triggers@
                }
            },
        }
    }

    /// One `trigger` call took place, with some drawn random position.
    pub open spec fn spec_trigger_applied(
        pre: Animation,
        post: Animation,
        params: crate::trigger::Parameters,
        frame_rate_hz: u32,
    ) -> bool {
        exists|rnd: u16|
            Self::spec_trigger_applied_with(pre, post, params, frame_rate_hz, rnd)
    }
}

} // verus!
