use vstd::prelude::*;

use crate::animations::Direction;
use crate::colors::{lemma_lerp_channel_bounds, lerp_channel, Color};

verus! {

/// A bounded, wrapping frame/phase counter with direction: the universal
/// "time within a phase" primitive. When `total <= 1` the progression is
/// "mono": it always reports position zero and never rolls over, which keeps
/// every divide and modulo by `total` well defined.
#[derive(Debug, Copy, Clone, PartialEq, Eq, Structural)]
pub struct Progression {
    pub current: usize,
    pub total: usize,
    pub is_forward: bool,
}

impl Default for Progression {
    /// The default progression is an empty (mono) one.
    fn default() -> (p: Self)
        ensures
            p == (Progression { current: 0, total: 0, is_forward: true }),
    {
        Progression { current: 0, total: 0, is_forward: true }
    }
}

impl Progression {
    /// Well-formedness: the raw position stays inside the counter's range,
    /// and a mono counter rests at zero.
    pub open spec fn wf(self) -> bool {
        if self.total <= 1 {
            self.current == 0
        } else {
            self.current < self.total
        }
    }

    /// A progression with `total <= 1` has a single position and never moves.
    pub open spec fn is_mono(self) -> bool {
        self.total <= 1
    }

    /// The reported position: zero for mono counters, otherwise the raw
    /// position, counted from the far end when the direction is reversed.
    pub open spec fn spec_current(self) -> int {
        if self.is_mono() {
            0
        } else if self.is_forward {
            self.current as int
        } else {
            self.total - 1 - self.current
        }
    }

    /// The raw position one step forward, wrapping modulo `total`.
    pub open spec fn next_position(self) -> int {
        if self.is_mono() {
            0
        } else {
            (self.current + 1) % (self.total as int)
        }
    }

    /// The raw position one step backward, wrapping modulo `total`.
    pub open spec fn prev_position(self) -> int {
        if self.is_mono() {
            0
        } else {
            (self.current + self.total - 1) % (self.total as int)
        }
    }

    /// The whole counter after one forward step (a no-op when mono).
    pub open spec fn spec_inc(self) -> Progression {
        if self.is_mono() {
            self
        } else {
            Progression { current: self.next_position() as usize, ..self }
        }
    }

    /// The whole counter after one backward step (a no-op when mono).
    pub open spec fn spec_dec(self) -> Progression {
        if self.is_mono() {
            self
        } else {
            Progression { current: self.prev_position() as usize, ..self }
        }
    }

    /// True exactly when a forward step makes the raw position wrap to zero.
    pub open spec fn spec_inc_rolls(self) -> bool {
        !self.is_mono() && self.next_position() == 0
    }

    pub fn new(total: usize) -> (p: Self)
        ensures
            p == (Progression { current: 0, total, is_forward: true }),
            p.wf(),
    {
        Self { current: 0, total, is_forward: true }
    }

    pub fn reverse_direction(&mut self)
        ensures
            *final(self) == (Progression { is_forward: !old(self).is_forward, ..*old(self) }),
    {
        self.is_forward = !self.is_forward;
    }

    fn is_mono_exec(&self) -> (r: bool)
        ensures
            r == self.is_mono(),
    {
        self.total <= 1
    }

    pub fn is_first_frame(&self) -> (r: bool)
        ensures
            r == (self.current == 0),
    {
        self.current == 0
    }

    /// Reports the current position, honoring direction; always zero for a
    /// mono counter.
    pub fn get_current(&self) -> (r: usize)
        requires
            self.wf(),
        ensures
            r == self.spec_current(),
    {
        if self.is_mono_exec() {
            return 0;
        }
        match self.is_forward {
            true => self.current,
            false => self.total - 1 - self.current,
        }
    }

    /// Clamps `value` into range via modulo and stores it as the raw
    /// position; a no-op on a mono counter.
    pub fn set_current(&mut self, value: usize)
        ensures
            *final(self) == if old(self).is_mono() {
                *old(self)
            } else {
                (Progression { current: (value % old(self).total) as usize, ..*old(self) })
            },
            old(self).wf() ==> final(self).wf(),
    {
        if self.is_mono_exec() {
            return;
        }
        let value = value % self.total;
        self.current = value;
    }

    pub fn decrement(&mut self)
        requires
            old(self).wf(),
        ensures
            *final(self) == old(self).spec_dec(),
            final(self).wf(),
    {
        if self.is_mono_exec() {
            return;
        }
        self.current = self.peek_prev();
    }

    /// Steps backward and reports whether the raw position wrapped to the
    /// far end; always false for a mono counter.
    pub fn checked_decrement(&mut self) -> (rolled: bool)
        requires
            old(self).wf(),
        ensures
            *final(self) == old(self).spec_dec(),
            final(self).wf(),
            rolled == (!old(self).is_mono() && old(self).prev_position() == old(self).total - 1),
    {
        if self.is_mono_exec() {
            return false;
        }
        self.decrement();
        self.current == self.total - 1
    }

    pub fn increment(&mut self)
        requires
            old(self).wf(),
        ensures
            *final(self) == old(self).spec_inc(),
            final(self).wf(),
    {
        if self.is_mono_exec() {
            return;
        }
        self.current = self.peek_next();
    }

    /// Steps forward and reports whether the raw position wrapped back to
    /// zero; always false for a mono counter. The wrap signal is what other
    /// layers use to advance a palette index exactly once per lap.
    pub fn checked_increment(&mut self) -> (rolled: bool)
        requires
            old(self).wf(),
        ensures
            *final(self) == old(self).spec_inc(),
            final(self).wf(),
            rolled == old(self).spec_inc_rolls(),
    {
        if self.is_mono_exec() {
            return false;
        }
        self.increment();
        self.current == 0
    }

    pub fn peek_next(&self) -> (r: usize)
        requires
            self.wf(),
        ensures
            r == self.next_position(),
    {
        self.up_one()
    }

    pub fn peek_prev(&self) -> (r: usize)
        requires
            self.wf(),
        ensures
            r == self.prev_position(),
    {
        self.down_one()
    }

    fn up_one(&self) -> (r: usize)
        requires
            self.wf(),
        ensures
            r == self.next_position(),
    {
        if self.is_mono_exec() {
            return 0;
        }
        (self.current + 1) % self.total
    }

    fn down_one(&self) -> (r: usize)
        requires
            self.wf(),
        ensures
            r == self.prev_position(),
    {
        if self.is_mono_exec() {
            return 0;
        }
        if self.current == 0 {
            proof {
                vstd::arithmetic::div_mod::lemma_small_mod(
                    (self.total - 1) as nat,
                    self.total as nat,
                );
            }
            self.total - 1
        } else {
            proof {
                vstd::arithmetic::div_mod::lemma_small_mod(
                    (self.current - 1) as nat,
                    self.total as nat,
                );
                vstd::arithmetic::div_mod::lemma_mod_add_multiples_vanish(
                    self.current - 1,
                    self.total as int,
                );
            }
            self.current - 1
        }
    }

    pub fn reset(&mut self)
        ensures
            *final(self) == (Progression { current: 0, ..*old(self) }),
            final(self).wf(),
    {
        self.current = 0
    }
}

/// The counter after `n` forward steps.
pub open spec fn spec_inc_n(p: Progression, n: nat) -> Progression
    decreases n,
{
    if n == 0 {
        p
    } else {
        spec_inc_n(p, (n - 1) as nat).spec_inc()
    }
}

/// Mono invariant: a progression whose total is at most one always reports
/// position zero, never moves, and never reports a rollover.
pub proof fn lemma_mono_progression(p: Progression)
    requires
        p.wf(),
        p.total <= 1,
    ensures
        p.spec_current() == 0,
        p.spec_inc() == p,
        p.spec_dec() == p,
        !p.spec_inc_rolls(),
{
}

/// After `n <= total` forward steps of a non-mono counter, the raw position
/// is the starting position advanced by `n`, modulo `total`, and the other
/// fields are untouched.
pub proof fn lemma_inc_n_closed_form(p: Progression, n: nat)
    requires
        p.wf(),
        p.total > 1,
    ensures
        spec_inc_n(p, n).current == (p.current + n) % (p.total as int),
        spec_inc_n(p, n).total == p.total,
        spec_inc_n(p, n).is_forward == p.is_forward,
        spec_inc_n(p, n).wf(),
    decreases n,
{
    if n == 0 {
        assert((p.current as int) % (p.total as int) == p.current) by {
            vstd::arithmetic::div_mod::lemma_small_mod(p.current as nat, p.total as nat);
        }
    } else {
        let prev = spec_inc_n(p, (n - 1) as nat);
        lemma_inc_n_closed_form(p, (n - 1) as nat);
        assert(prev.current == (p.current + (n - 1)) % (p.total as int));
        let t = p.total as int;
        assert(((p.current + (n - 1)) % t + 1) % t == (p.current + n) % t) by {
            vstd::arithmetic::div_mod::lemma_add_mod_noop(p.current + (n - 1) as int, 1, t);
            vstd::arithmetic::div_mod::lemma_small_mod(1nat, t as nat);
        }
    }
}

/// Cyclicity of a non-mono counter: after exactly `total` forward steps the
/// counter is back in its starting state, and along those `total` steps the
/// rollover signal (the raw position wrapping to zero, which is what
/// `checked_increment` reports) fires exactly once.
pub proof fn lemma_progression_cycle(p: Progression)
    requires
        p.wf(),
        p.total > 1,
    ensures
        spec_inc_n(p, p.total as nat) == p,
        exists|k: nat| 1 <= k <= p.total && spec_inc_n(p, k).current == 0,
        forall|k1: nat, k2: nat|
            (1 <= k1 <= p.total && 1 <= k2 <= p.total && spec_inc_n(p, k1).current == 0
                && spec_inc_n(p, k2).current == 0) ==> k1 == k2,
{
    let t = p.total as int;
    let c = p.current as int;
    lemma_inc_n_closed_form(p, p.total as nat);
    assert((c + t) % t == c) by {
        vstd::arithmetic::div_mod::lemma_mod_add_multiples_vanish(c, t);
        vstd::arithmetic::div_mod::lemma_small_mod(p.current as nat, p.total as nat);
    }
    assert(spec_inc_n(p, p.total as nat) == p);

    // The one step at which the counter wraps is `total - current`.
    let kw = (p.total - p.current) as nat;
    lemma_inc_n_closed_form(p, kw);
    assert((c + kw) % t == 0) by {
        vstd::arithmetic::div_mod::lemma_mod_self_0(t);
    }
    assert(1 <= kw <= p.total && spec_inc_n(p, kw).current == 0);

    // And it is the only such step: for 1 <= k <= total the sum c + k lies
    // strictly between 0 and 2 * total, so it is a multiple of total only
    // when it equals total itself.
    assert forall|k: nat| 1 <= k <= p.total && spec_inc_n(p, k).current == 0 implies k
        == kw by {
        lemma_inc_n_closed_form(p, k);
        assert((c + k) % t == 0);
        if c + k < t {
            vstd::arithmetic::div_mod::lemma_small_mod((c + k) as nat, t as nat);
            assert(false);
        } else if c + k > t {
            assert(0 < c + k - t < t);
            vstd::arithmetic::div_mod::lemma_mod_add_multiples_vanish(c + k - t, t);
            vstd::arithmetic::div_mod::lemma_small_mod((c + k - t) as nat, t as nat);
            assert(false);
        }
    }
}

/// An ordered, immutable list of colors read either front-to-back or
/// back-to-front.
pub struct ReversibleRainbow {
    pub backer: Vec<Color>,
    pub is_forward: bool,
}

impl ReversibleRainbow {
    /// The color the rainbow shows at `index`, honoring direction.
    pub open spec fn spec_color_at(self, index: int) -> Color {
        if self.is_forward {
            self.backer@[index]
        } else {
            self.backer@[self.backer@.len() - 1 - index]
        }
    }

    pub fn len(&self) -> (r: usize)
        ensures
            r == self.backer@.len(),
    {
        self.backer.len()
    }

    pub fn is_empty(&self) -> (r: bool)
        ensures
            r == (self.backer@.len() == 0),
    {
        self.backer.len() == 0
    }

    pub fn color_at(&self, index: usize) -> (c: Color)
        requires
            index < self.backer@.len(),
        ensures
            c == self.spec_color_at(index as int),
    {
        match self.is_forward {
            true => self.backer[index],
            false => self.backer[self.backer.len() - 1 - index],
        }
    }
}

/// A palette reference plus a progression over its indices: supplies the
/// current color, peeks at its neighbors, and advances or resets. The
/// position's range always equals the palette's length, and zero-length
/// palettes are rejected at construction.
pub struct StatefulRainbow {
    pub backer: ReversibleRainbow,
    pub position: Progression,
}

impl StatefulRainbow {
    pub open spec fn wf(self) -> bool {
        &&& self.backer.backer@.len() >= 1
        &&& self.position.total == self.backer.backer@.len()
        &&& self.position.wf()
    }

    /// The color at the progression's reported position.
    pub open spec fn spec_current_color(self) -> Color {
        self.backer.spec_color_at(self.position.spec_current())
    }

    /// The color one position forward.
    pub open spec fn spec_next_color(self) -> Color {
        self.backer.spec_color_at(self.position.next_position())
    }

    /// The color one position backward.
    pub open spec fn spec_prev_color(self) -> Color {
        self.backer.spec_color_at(self.position.prev_position())
    }

    /// Builds a cursor over a copy of `rainbow`. Zero-length palettes are a
    /// configuration error and are rejected here rather than guarded at
    /// every use.
    pub fn new(rainbow: &[Color], is_forward: bool) -> (r: StatefulRainbow)
        requires
            rainbow@.len() >= 1,
        ensures
            r.backer.backer@ == rainbow@,
            r.backer.is_forward == is_forward,
            r.position == (Progression {
                current: 0,
                total: rainbow@.len() as usize,
                is_forward: true,
            }),
            r.wf(),
    {
        let position = Progression::new(rainbow.len());
        let backer = ReversibleRainbow { backer: slice_to_vec(rainbow), is_forward };
        Self { backer, position }
    }

    pub fn current_color(&self) -> (c: Color)
        requires
            self.wf(),
        ensures
            c == self.spec_current_color(),
    {
        self.backer.color_at(self.position.get_current())
    }

    pub fn decrement(&mut self)
        requires
            old(self).wf(),
        ensures
            *final(self) == (StatefulRainbow {
                position: old(self).position.spec_dec(),
                ..*old(self)
            }),
            final(self).wf(),
    {
        self.position.decrement();
    }

    pub fn increment(&mut self)
        requires
            old(self).wf(),
        ensures
            *final(self) == (StatefulRainbow {
                position: old(self).position.spec_inc(),
                ..*old(self)
            }),
            final(self).wf(),
    {
        self.position.increment();
    }

    pub fn peek_next_color(&self) -> (c: Color)
        requires
            self.wf(),
        ensures
            c == self.spec_next_color(),
    {
        self.backer.color_at(self.position.peek_next())
    }

    pub fn peek_last_color(&self) -> (c: Color)
        requires
            self.wf(),
        ensures
            c == self.spec_prev_color(),
    {
        self.backer.color_at(self.position.peek_prev())
    }

    pub fn reset(&mut self)
        requires
            old(self).wf(),
        ensures
            *final(self) == (StatefulRainbow {
                position: (Progression { current: 0, ..old(self).position }),
                ..*old(self)
            }),
            final(self).wf(),
    {
        self.position.reset();
    }
}

/// Copies a borrowed slice of colors into an owned vector.
fn slice_to_vec(s: &[Color]) -> (v: Vec<Color>)
    ensures
        v@ == s@,
{
    let mut v: Vec<Color> = Vec::new();
    let mut i: usize = 0;
    while i < s.len()
        invariant
            i <= s@.len(),
            v@ == s@.subrange(0, i as int),
        decreases s@.len() - i,
    {
        v.push(s[i]);
        i = i + 1;
    }
    proof {
        assert(v@ =~= s@);
    }
    v
}

/// The number of whole frames that fit in `nanos` nanoseconds at the given
/// frame rate.
pub open spec fn spec_ns_to_frames(nanos: u64, frame_rate_hz: u32) -> int {
    (nanos * frame_rate_hz) / 1_000_000_000
}

pub fn convert_ns_to_frames(nanos: u64, frame_rate_hz: u32) -> (frames: usize)
    requires
        nanos * frame_rate_hz <= u64::MAX,
        spec_ns_to_frames(nanos, frame_rate_hz) <= usize::MAX,
    ensures
        frames == spec_ns_to_frames(nanos, frame_rate_hz),
{
    ((nanos * frame_rate_hz as u64) / 1_000_000_000_u64) as usize
}

pub fn convert_ms_to_frames(millis: u64, frame_rate_hz: u32) -> (frames: usize)
    requires
        millis * frame_rate_hz <= u64::MAX,
        (millis * frame_rate_hz) / 1_000 <= usize::MAX,
    ensures
        frames == (millis * frame_rate_hz) / 1_000,
{
    ((millis * frame_rate_hz as u64) / 1_000_u64) as usize
}

/// Returns a translation array of `size` consecutive buffer indices
/// beginning with `start_at`.
pub fn default_translation_array(size: usize, start_at: usize) -> (r: Vec<usize>)
    requires
        start_at + size <= usize::MAX,
    ensures
        r@.len() == size,
        forall|i: int| 0 <= i < size ==> r@[i] == start_at + i,
{
    let mut r: Vec<usize> = Vec::new();
    let mut i: usize = 0;
    while i < size
        invariant
            i <= size,
            start_at + size <= usize::MAX,
            r@.len() == i,
            forall|j: int| 0 <= j < i ==> r@[j] == start_at + j,
        decreases size - i,
    {
        r.push(start_at + i);
        i = i + 1;
    }
    r
}

/// Where a rotating animation's anchor sits after `frames` of movement in
/// `direction`: the starting offset shifted by the elapsed fraction of the
/// full supersampled range, truncated back into sixteen bits.
pub open spec fn spec_shift_offset(
    starting_offset: u16,
    frames: Progression,
    direction: Direction,
) -> int {
    if frames.total == 0 {
        starting_offset as int
    } else {
        let shift = match direction {
            Direction::Positive => (65535 * frames.spec_current()) / (frames.total as int),
            Direction::Negative => (65535 * (frames.total - frames.spec_current())) / (
            frames.total as int),
            Direction::Stopped => 0,
        };
        (starting_offset + shift) % 0x10000
    }
}

pub fn shift_offset(starting_offset: u16, frames: Progression, direction: Direction) -> (r: u16)
    requires
        frames.wf(),
        frames.total <= 0xffff_ffff,
    ensures
        r == spec_shift_offset(starting_offset, frames, direction),
{
    if frames.total == 0 {
        return starting_offset;
    }
    let cur = frames.get_current() as u64;
    let total = frames.total as u64;
    proof {
        let curi = cur as int;
        let totali = total as int;
        assert(curi <= totali);
        assert((65535 * curi) / totali <= 65535) by (nonlinear_arith)
            requires
                0 < totali,
                curi <= totali,
        ;
        assert((65535 * (totali - curi)) / totali <= 65535) by (nonlinear_arith)
            requires
                0 < totali,
                0 <= curi <= totali,
        ;
    }
    let offset_shift: u64 = match direction {
        Direction::Positive => (65535_u64 * cur) / total,
        Direction::Negative => (65535_u64 * (total - cur)) / total,
        Direction::Stopped => 0,
    };
    ((starting_offset as u64 + offset_shift) % 0x10000_u64) as u16
}

/// The continuous fade color shared by the "fade" animation flavors: the
/// current palette color, interpolated toward the next one by the elapsed
/// fraction of the frame counter. With an empty (total zero) counter the
/// current color is returned unchanged.
pub open spec fn spec_fade_color(rainbow: StatefulRainbow, frames: Progression) -> Color {
    if frames.total == 0 {
        rainbow.spec_current_color()
    } else {
        spec_lerp(
            rainbow.spec_current_color(),
            rainbow.spec_next_color(),
            frames.spec_current(),
            frames.total as int,
        )
    }
}

/// Channel-wise linear interpolation from `from` toward `to`, `cur` of
/// `total` of the way there.
pub open spec fn spec_lerp(from: Color, to: Color, cur: int, total: int) -> Color {
    Color {
        r: lerp_channel(cur, 0, total, from.r, to.r) as u8,
        g: lerp_channel(cur, 0, total, from.g, to.g) as u8,
        b: lerp_channel(cur, 0, total, from.b, to.b) as u8,
    }
}

impl Color {
    /// Interpolates from this color toward `to_color` by the position of the
    /// `factor` counter within its range.
    pub fn lerp_with(&self, to_color: Color, factor: Progression) -> (c: Color)
        requires
            factor.wf(),
            1 <= factor.total <= 0x00ff_ffff,
        ensures
            c == spec_lerp(*self, to_color, factor.spec_current(), factor.total as int),
    {
        let mid = Color::color_lerp(
            factor.get_current() as i32,
            0,
            factor.total as i32,
            *self,
            to_color,
        );
        proof {
            lemma_lerp_channel_bounds(
                factor.spec_current(),
                0,
                factor.total as int,
                self.r,
                to_color.r,
            );
            lemma_lerp_channel_bounds(
                factor.spec_current(),
                0,
                factor.total as int,
                self.g,
                to_color.g,
            );
            lemma_lerp_channel_bounds(
                factor.spec_current(),
                0,
                factor.total as int,
                self.b,
                to_color.b,
            );
        }
        mid
    }
}

/// Computes the fade color from a cursor and counter pair; see
/// `spec_fade_color`.
pub fn calculate_fade_color(rainbow: &StatefulRainbow, frames: &Progression) -> (c: Color)
    requires
        rainbow.wf(),
        frames.wf(),
        frames.total <= 0x00ff_ffff,
    ensures
        c == spec_fade_color(*rainbow, *frames),
{
    let current_color = rainbow.current_color();
    if frames.total == 0 {
        return current_color;
    }
    let next_color = rainbow.peek_next_color();
    current_color.lerp_with(next_color, *frames)
}

} // verus!
