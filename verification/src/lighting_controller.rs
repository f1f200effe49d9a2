use vstd::prelude::*;

use crate::animations::{Animation, AnimationType};
use crate::colors::Color;
use crate::leds::ws28xx::{spec_bytes_after_set, spec_gamma_color, LogicalStrip, PhysicalStrip};
use crate::utility::spec_ns_to_frames;

verus! {

/// The color buffer after the first `j` pixels of one animation's segment
/// have been written through its translation array: each write stores the
/// gamma-corrected segment color at the translated index.
pub open spec fn spec_colors_after_segment(
    colors: Seq<Color>,
    translation: Seq<usize>,
    seg: Seq<Color>,
    j: int,
) -> Seq<Color>
    decreases j,
{
    if j <= 0 {
        colors
    } else {
        spec_colors_after_segment(colors, translation, seg, j - 1).update(
            translation[j - 1] as int,
            spec_gamma_color(seg[j - 1]),
        )
    }
}

/// The wire byte buffer after the same `j` writes.
pub open spec fn spec_bytes_after_segment(
    strips: Seq<PhysicalStrip>,
    bytes: Seq<u8>,
    translation: Seq<usize>,
    seg: Seq<Color>,
    j: int,
) -> Seq<u8>
    decreases j,
{
    if j <= 0 {
        bytes
    } else {
        spec_bytes_after_set(
            strips,
            spec_bytes_after_segment(strips, bytes, translation, seg, j - 1),
            translation[j - 1] as int,
            seg[j - 1],
        )
    }
}

/// The color buffer after the first `k` animations (in their updated
/// states) have written their whole segments, in order.
pub open spec fn spec_colors_after_animations(
    colors: Seq<Color>,
    anims: Seq<Animation>,
    k: int,
) -> Seq<Color>
    decreases k,
{
    if k <= 0 {
        colors
    } else {
        let prev = spec_colors_after_animations(colors, anims, k - 1);
        spec_colors_after_segment(
            prev,
            anims[k - 1].translation_array@,
            anims[k - 1].segment@,
            anims[k - 1].segment@.len() as int,
        )
    }
}

/// The wire byte buffer after the same `k` animations' writes.
pub open spec fn spec_bytes_after_animations(
    strips: Seq<PhysicalStrip>,
    bytes: Seq<u8>,
    anims: Seq<Animation>,
    k: int,
) -> Seq<u8>
    decreases k,
{
    if k <= 0 {
        bytes
    } else {
        let prev = spec_bytes_after_animations(strips, bytes, anims, k - 1);
        spec_bytes_after_segment(
            strips,
            prev,
            anims[k - 1].translation_array@,
            anims[k - 1].segment@,
            anims[k - 1].segment@.len() as int,
        )
    }
}

/// Owns the logical strip and every animation, and runs the frame loop's
/// decisions: when the frame timer has fired, every animation advances one
/// frame and its segment is written through its translation array into the
/// strip buffers, which are then ready to transmit. The hardware timer and
/// pins themselves stay outside; the caller polls the timer and performs
/// the transmission.
pub struct LightingController {
    pub logical_strip: LogicalStrip,
    pub animations: Vec<Animation>,
    pub frame_rate_hz: u32,
}

impl LightingController {
    /// Well-formedness: a sound strip, sound animations, and every
    /// translation index inside the strip's color buffer.
    pub open spec fn wf(self) -> bool {
        &&& self.logical_strip.wf()
        &&& forall|k: int|
            0 <= k < self.animations@.len() ==> (#[trigger] self.animations@[k]).wf()
        &&& forall|k: int, j: int|
            0 <= k < self.animations@.len() && 0 <= j
                < self.animations@[k].translation_array@.len()
                ==> #[trigger] self.animations@[k].translation_array@[j]
                < self.logical_strip.color_buffer@.len()
    }

    pub fn new(logical_strip: LogicalStrip, animations: Vec<Animation>, frame_rate_hz: u32) -> (lc:
        Self)
        requires
            frame_rate_hz >= 1,
        ensures
            lc.logical_strip == logical_strip,
            lc.animations == animations,
            lc.frame_rate_hz == frame_rate_hz,
    {
        LightingController { logical_strip, animations, frame_rate_hz }
    }

    /// The period, in nanoseconds, the frame timer must be configured with
    /// so that one timeout elapses per frame.
    pub fn frame_period_ns(&self) -> (r: u64)
        requires
            self.frame_rate_hz >= 1,
        ensures
            r == 1_000_000_000u64 as int / self.frame_rate_hz as int,
    {
        1_000_000_000_u64 / self.frame_rate_hz as u64
    }

    /// One pass of the frame loop. `timer_expired` is whether the frame
    /// timer has reached its match point since the last pass; when it has
    /// not, nothing happens and the caller simply polls again. When it has,
    /// every animation advances one frame and paints its segment into the
    /// strip buffers, in order, and the return value tells the caller to
    /// transmit the strip.
    pub fn update(&mut self, timer_expired: bool) -> (rendered: bool)
        requires
            old(self).wf(),
        ensures
            final(self).wf(),
            rendered == timer_expired,
            !timer_expired ==> *final(self) == *old(self),
            timer_expired ==> ({
                &&& final(self).animations@.len() == old(self).animations@.len()
                &&& forall|k: int|
                    0 <= k < old(self).animations@.len() ==> Animation::spec_stepped(
                        old(self).animations@[k],
                        #[trigger] final(self).animations@[k],
                    )
                &&& final(self).logical_strip.strips@ == old(self).logical_strip.strips@
                &&& final(self).logical_strip.color_buffer@ == spec_colors_after_animations(
                    old(self).logical_strip.color_buffer@,
                    final(self).animations@,
                    final(self).animations@.len() as int,
                )
                &&& final(self).logical_strip.byte_buffer@ == spec_bytes_after_animations(
                    old(self).logical_strip.strips@,
                    old(self).logical_strip.byte_buffer@,
                    final(self).animations@,
                    final(self).animations@.len() as int,
                )
                &&& final(self).frame_rate_hz == old(self).frame_rate_hz
            }),
    {
        if !timer_expired {
            return false;
        }
        let n = self.animations.len();
        let mut k: usize = 0;
        while k < n
            invariant
                n == self.animations@.len(),
                n == old(self).animations@.len(),
                k <= n,
                self.frame_rate_hz == old(self).frame_rate_hz,
                self.logical_strip.wf(),
                self.logical_strip.strips@ == old(self).logical_strip.strips@,
                self.logical_strip.color_buffer@.len() == old(
                    self,
                ).logical_strip.color_buffer@.len(),
                forall|m: int| 0 <= m < n ==> (#[trigger] self.animations@[m]).wf(),
                forall|m: int, j: int|
                    0 <= m < n && 0 <= j < self.animations@[m].translation_array@.len()
                        ==> #[trigger] self.animations@[m].translation_array@[j]
                        < self.logical_strip.color_buffer@.len(),
                forall|m: int|
                    k <= m < n ==> #[trigger] self.animations@[m] == old(self).animations@[m],
                forall|m: int|
                    0 <= m < k ==> Animation::spec_stepped(
                        old(self).animations@[m],
                        #[trigger] self.animations@[m],
                    ),
                self.logical_strip.color_buffer@ == spec_colors_after_animations(
                    old(self).logical_strip.color_buffer@,
                    self.animations@,
                    k as int,
                ),
                self.logical_strip.byte_buffer@ == spec_bytes_after_animations(
                    old(self).logical_strip.strips@,
                    old(self).logical_strip.byte_buffer@,
                    self.animations@,
                    k as int,
                ),
            decreases n - k,
        {
            let ghost anims_before = self.animations@;
            let mut animation = self.animations.remove(k);
            animation.update();

            let m = animation.segment.len();
            let mut j: usize = 0;
            while j < m
                invariant
                    j <= m,
                    k < n,
                    n == anims_before.len(),
                    self.animations@ == anims_before.remove(k as int),
                    self.frame_rate_hz == old(self).frame_rate_hz,
                    m == animation.segment@.len(),
                    animation.wf(),
                    m == animation.translation_array@.len(),
                    forall|i: int|
                        0 <= i < m ==> #[trigger] animation.translation_array@[i]
                            < self.logical_strip.color_buffer@.len(),
                    self.logical_strip.wf(),
                    self.logical_strip.strips@ == old(self).logical_strip.strips@,
                    self.logical_strip.color_buffer@.len() == old(
                        self,
                    ).logical_strip.color_buffer@.len(),
                    self.logical_strip.color_buffer@ == spec_colors_after_segment(
                        spec_colors_after_animations(
                            old(self).logical_strip.color_buffer@,
                            anims_before,
                            k as int,
                        ),
                        animation.translation_array@,
                        animation.segment@,
                        j as int,
                    ),
                    self.logical_strip.byte_buffer@ == spec_bytes_after_segment(
                        old(self).logical_strip.strips@,
                        spec_bytes_after_animations(
                            old(self).logical_strip.strips@,
                            old(self).logical_strip.byte_buffer@,
                            anims_before,
                            k as int,
                        ),
                        animation.translation_array@,
                        animation.segment@,
                        j as int,
                    ),
                decreases m - j,
            {
                let index = animation.translation_array[j];
                let color = animation.segment[j];
                self.logical_strip.set_color_at_index(index, color);
                j = j + 1;
            }
            self.animations.insert(k, animation);
            proof {
                assert(self.animations@ =~= anims_before.update(k as int, self.animations@[
                k as int]));
                assert(spec_colors_after_animations(
                    old(self).logical_strip.color_buffer@,
                    self.animations@,
                    k as int,
                ) == spec_colors_after_animations(
                    old(self).logical_strip.color_buffer@,
                    anims_before,
                    k as int,
                )) by {
                    lemma_colors_after_animations_prefix_agree(
                        old(self).logical_strip.color_buffer@,
                        anims_before,
                        self.animations@,
                        k as int,
                    );
                }
                assert(spec_bytes_after_animations(
                    old(self).logical_strip.strips@,
                    old(self).logical_strip.byte_buffer@,
                    self.animations@,
                    k as int,
                ) == spec_bytes_after_animations(
                    old(self).logical_strip.strips@,
                    old(self).logical_strip.byte_buffer@,
                    anims_before,
                    k as int,
                )) by {
                    lemma_bytes_after_animations_prefix_agree(
                        old(self).logical_strip.strips@,
                        old(self).logical_strip.byte_buffer@,
                        anims_before,
                        self.animations@,
                        k as int,
                    );
                }
            }
            k = k + 1;
        }
        true
    }

    /// Forwards a set of trigger parameters to the addressed animation; may
    /// be called at any time between frame updates.
    pub fn trigger(&mut self, animation_index: usize, params: &crate::trigger::Parameters)
        requires
            old(self).wf(),
            animation_index < old(self).animations@.len(),
            params.fade_in_time_ns + params.fade_out_time_ns <= u64::MAX,
            (params.fade_in_time_ns + params.fade_out_time_ns) * old(self).frame_rate_hz
                <= u64::MAX,
            spec_ns_to_frames(
                (params.fade_in_time_ns + params.fade_out_time_ns) as u64,
                old(self).frame_rate_hz,
            ) <= 0x00ff_ffff,
            params.pixels_per_pixel_group <= 65535,
        ensures
            final(self).wf(),
            final(self).logical_strip == old(self).logical_strip,
            final(self).frame_rate_hz == old(self).frame_rate_hz,
            final(self).animations@.len() == old(self).animations@.len(),
            forall|m: int|
                0 <= m < old(self).animations@.len() && m != animation_index
                    ==> #[trigger] final(self).animations@[m] == old(self).animations@[m],
            Animation::spec_trigger_applied(
                old(self).animations@[animation_index as int],
                final(self).animations@[animation_index as int],
                *params,
                old(self).frame_rate_hz,
            ),
    {
        let ghost anims_before = self.animations@;
        let mut animation = self.animations.remove(animation_index);
        animation.trigger(params, self.frame_rate_hz);
        self.animations.insert(animation_index, animation);
        proof {
            assert(self.animations@ =~= anims_before.update(
                animation_index as int,
                self.animations@[animation_index as int],
            ));
        }
    }

    /// Sets the addressed animation's background or foreground offset; may
    /// be called at any time between frame updates.
    pub fn set_offset(&mut self, animation_index: usize, a_type: AnimationType, offset: u16)
        requires
            old(self).wf(),
            animation_index < old(self).animations@.len(),
        ensures
            final(self).wf(),
            final(self).logical_strip == old(self).logical_strip,
            final(self).frame_rate_hz == old(self).frame_rate_hz,
            final(self).animations@.len() == old(self).animations@.len(),
            forall|m: int|
                0 <= m < old(self).animations@.len() && m != animation_index
                    ==> #[trigger] final(self).animations@[m] == old(self).animations@[m],
            final(self).animations@[animation_index as int] == match a_type {
                AnimationType::Background => (Animation {
                    bg_state: (crate::background::Background {
                        offset,
                        ..old(self).animations@[animation_index as int].bg_state
                    }),
                    ..old(self).animations@[animation_index as int]
                }),
                AnimationType::Foreground => (Animation {
                    fg_state: (crate::foreground::Foreground {
                        offset,
                        ..old(self).animations@[animation_index as int].fg_state
                    }),
                    ..old(self).animations@[animation_index as int]
                }),
                AnimationType::Trigger => old(self).animations@[animation_index as int],
            },
    {
        let ghost anims_before = self.animations@;
        let mut animation = self.animations.remove(animation_index);
        animation.set_offset(a_type, offset);
        self.animations.insert(animation_index, animation);
        proof {
            assert(self.animations@ =~= anims_before.update(
                animation_index as int,
                self.animations@[animation_index as int],
            ));
        }
    }

    /// Replaces the addressed animation wholesale.
    pub fn replace_animation(&mut self, index: usize, new_anim: Animation)
        requires
            old(self).wf(),
            index < old(self).animations@.len(),
            new_anim.wf(),
            forall|j: int|
                0 <= j < new_anim.translation_array@.len()
                    ==> #[trigger] new_anim.translation_array@[j] < old(
                    self,
                ).logical_strip.color_buffer@.len(),
        ensures
            final(self).wf(),
            final(self).logical_strip == old(self).logical_strip,
            final(self).frame_rate_hz == old(self).frame_rate_hz,
            final(self).animations@ == old(self).animations@.update(index as int, new_anim),
    {
        let ghost anims_before = self.animations@;
        let _ = self.animations.remove(index);
        self.animations.insert(index, new_anim);
        proof {
            assert(self.animations@ =~= anims_before.update(index as int, new_anim));
        }
    }
}

/// Two animation sequences that agree on their first `k` entries leave the
/// color buffer in the same state after those `k` animations write.
proof fn lemma_colors_after_animations_prefix_agree(
    colors: Seq<Color>,
    a: Seq<Animation>,
    b: Seq<Animation>,
    k: int,
)
    requires
        k <= a.len(),
        k <= b.len(),
        forall|m: int| 0 <= m < k ==> a[m] == b[m],
    ensures
        spec_colors_after_animations(colors, a, k) == spec_colors_after_animations(colors, b, k),
    decreases k,
{
    if k > 0 {
        lemma_colors_after_animations_prefix_agree(colors, a, b, k - 1);
    }
}

/// Two animation sequences that agree on their first `k` entries leave the
/// wire bytes in the same state after those `k` animations write.
proof fn lemma_bytes_after_animations_prefix_agree(
    strips: Seq<PhysicalStrip>,
    bytes: Seq<u8>,
    a: Seq<Animation>,
    b: Seq<Animation>,
    k: int,
)
    requires
        k <= a.len(),
        k <= b.len(),
        forall|m: int| 0 <= m < k ==> a[m] == b[m],
    ensures
        spec_bytes_after_animations(strips, bytes, a, k) == spec_bytes_after_animations(
            strips,
            bytes,
            b,
            k,
        ),
    decreases k,
{
    if k > 0 {
        lemma_bytes_after_animations_prefix_agree(strips, bytes, a, b, k - 1);
    }
}

} // verus!
