use vstd::prelude::*;

use crate::colors::{Color, GAMMA8};

verus! {

/// The high-pulse widths and full cycle time of one WS281x bit, in
/// nanoseconds. The protocol encodes each bit by how long the line stays
/// high within a fixed-width cycle.
pub struct StripTimings {
    pub zero_h: u32,
    pub one_h: u32,
    pub full_cycle: u32,
}

impl StripTimings {
    /// The WS2811 timing profile at the slower data rate.
    pub fn ws2811_adafruit() -> (t: Self)
        ensures
            t.zero_h == 500,
            t.one_h == 1200,
            t.full_cycle == 2500,
    {
        StripTimings { zero_h: 500, one_h: 1200, full_cycle: 2500 }
    }

    /// The WS2812 timing profile at the faster data rate.
    pub fn ws2812_adafruit() -> (t: Self)
        ensures
            t.zero_h == 400,
            t.one_h == 800,
            t.full_cycle == 1250,
    {
        StripTimings { zero_h: 400, one_h: 800, full_cycle: 1250 }
    }
}

/// How many timer periods the data line is held low before a strip's data
/// is sent, so the LEDs latch and reset.
pub const WS2811_DELAY_LOOPS_BEFORE_SEND: u32 = 900;

/// The order in which a strip's hardware expects the three color channels
/// within each LED's three data bytes.
#[derive(Copy, Clone, PartialEq, Eq, Structural, Debug)]
pub enum ColorOrder {
    RGB,
    RBG,
    GRB,
    GBR,
    BRG,
    BGR,
}

impl ColorOrder {
    /// The byte position, within an LED's three data bytes, of the red,
    /// green and blue channel respectively.
    pub open spec fn spec_offsets(self) -> Seq<int> {
        match self {
            ColorOrder::RGB => seq![0int, 1, 2],
            ColorOrder::RBG => seq![0int, 2, 1],
            ColorOrder::GRB => seq![1int, 0, 2],
            ColorOrder::BRG => seq![1int, 2, 0],
            ColorOrder::GBR => seq![2int, 0, 1],
            ColorOrder::BGR => seq![2int, 1, 0],
        }
    }

    pub fn offsets(&self) -> (r: [usize; 3])
        ensures
            r@.len() == 3,
            r@[0] == self.spec_offsets()[0],
            r@[1] == self.spec_offsets()[1],
            r@[2] == self.spec_offsets()[2],
            0 <= self.spec_offsets()[0] <= 2,
            0 <= self.spec_offsets()[1] <= 2,
            0 <= self.spec_offsets()[2] <= 2,
    {
        match self {
            ColorOrder::RGB => [0, 1, 2],
            ColorOrder::RBG => [0, 2, 1],
            ColorOrder::GRB => [1, 0, 2],
            ColorOrder::BRG => [1, 2, 0],
            ColorOrder::GBR => [2, 0, 1],
            ColorOrder::BGR => [2, 1, 0],
        }
    }
}

/// The static hardware description of one physical LED strip: how many LEDs
/// it has, whether its data order runs opposite to the logical index order,
/// its channel order, and its bit timing.
pub struct PhysicalStrip {
    pub led_count: usize,
    pub reversed: bool,
    pub color_order: ColorOrder,
    pub strip_timings: StripTimings,
}

/// The buffer index where strip `k`'s LEDs begin: the sum of the LED counts
/// of the strips before it.
pub open spec fn spec_strip_start(strips: Seq<PhysicalStrip>, k: int) -> int
    decreases k,
{
    if k <= 0 {
        0
    } else {
        spec_strip_start(strips, k - 1) + strips[k - 1].led_count
    }
}

/// The total number of LEDs across all physical strips.
pub open spec fn spec_total_led_count(strips: Seq<PhysicalStrip>) -> int {
    spec_strip_start(strips, strips.len() as int)
}

/// Strip start positions never decrease as the strip index grows.
pub proof fn lemma_strip_start_monotone(strips: Seq<PhysicalStrip>, a: int, b: int)
    requires
        0 <= a <= b,
    ensures
        spec_strip_start(strips, a) <= spec_strip_start(strips, b),
    decreases b - a,
{
    if a < b {
        lemma_strip_start_monotone(strips, a, b - 1);
    }
}

/// The index of the first strip at or after `k` whose index range contains
/// `index`; `strips.len()` if none does.
pub open spec fn spec_owner_from(strips: Seq<PhysicalStrip>, index: int, k: int) -> int
    decreases strips.len() - k,
{
    if k < 0 || k >= strips.len() {
        strips.len() as int
    } else if index < spec_strip_start(strips, k) + strips[k].led_count {
        k
    } else {
        spec_owner_from(strips, index, k + 1)
    }
}

/// The strip that owns buffer index `index`.
pub open spec fn spec_owner_of(strips: Seq<PhysicalStrip>, index: int) -> int {
    spec_owner_from(strips, index, 0)
}

/// The byte-level LED position a logical index maps to within its strip:
/// reversed strips store their data back-to-front relative to the logical
/// order.
pub open spec fn spec_physical_index(strip: PhysicalStrip, start: int, index: int) -> int {
    if strip.reversed {
        start + (strip.led_count - 1 - (index - start))
    } else {
        index
    }
}

/// The byte buffer after one LED's three channel bytes are written: the
/// channel values land at the strip's channel-order positions of the
/// direction-corrected LED position. The raw channel values are stored.
pub open spec fn spec_bytes_after_write(
    bytes: Seq<u8>,
    strip: PhysicalStrip,
    start: int,
    index: int,
    color: Color,
) -> Seq<u8> {
    let pi = spec_physical_index(strip, start, index);
    let offs = strip.color_order.spec_offsets();
    bytes.update(3 * pi + offs[0], color.r).update(3 * pi + offs[1], color.g).update(
        3 * pi + offs[2],
        color.b,
    )
}

/// The byte buffer after a write of `color` at logical `index`, with the
/// owning strip resolved.
pub open spec fn spec_bytes_after_set(
    strips: Seq<PhysicalStrip>,
    bytes: Seq<u8>,
    index: int,
    color: Color,
) -> Seq<u8> {
    let k = spec_owner_of(strips, index);
    spec_bytes_after_write(bytes, strips[k], spec_strip_start(strips, k), index, color)
}

/// A color with each channel passed through the gamma table, as a write
/// through `Color::set_color` stores it.
pub open spec fn spec_gamma_color(c: Color) -> Color {
    Color { r: GAMMA8[c.r as int], g: GAMMA8[c.g as int], b: GAMMA8[c.b as int] }
}

/// Bit `j` (most significant first) of a byte.
pub open spec fn spec_bit_of_byte(b: u8, j: int) -> bool {
    (b >> (7 - j)) & 1 == 1
}

/// The number of timer periods (thirds of the full bit cycle) the data line
/// stays high when one bit is sent: two thirds encode a one, one third a
/// zero.
pub fn high_periods_for_bit(bit: bool) -> (r: u32)
    ensures
        r == if bit {
            2int
        } else {
            1int
        },
{
    if bit {
        2
    } else {
        1
    }
}

/// Owns the whole logical color buffer plus its wire-ready byte image, and
/// the descriptors of the physical strips the buffer spans. Writes keep the
/// byte image channel-ordered and direction-corrected so that transmission
/// never has to re-walk colors.
pub struct LogicalStrip {
    pub byte_buffer: Vec<u8>,
    pub color_buffer: Vec<Color>,
    pub strips: Vec<PhysicalStrip>,
}

impl LogicalStrip {
    /// Well-formedness: one color per LED over all strips, and three bytes
    /// per color.
    pub open spec fn wf(self) -> bool {
        &&& self.color_buffer@.len() == spec_total_led_count(self.strips@)
        &&& self.byte_buffer@.len() == 3 * self.color_buffer@.len()
    }

    pub fn new(byte_buffer: Vec<u8>, color_buffer: Vec<Color>, strips: Vec<PhysicalStrip>) -> (r:
        Self)
        requires
            color_buffer@.len() == spec_total_led_count(strips@),
            byte_buffer@.len() == 3 * color_buffer@.len(),
        ensures
            r.byte_buffer@ == byte_buffer@,
            r.color_buffer@ == color_buffer@,
            r.strips@ == strips@,
            r.wf(),
    {
        LogicalStrip { color_buffer, strips, byte_buffer }
    }

    pub fn get_color_at_index(&self, index: usize) -> (c: Color)
        requires
            index < self.color_buffer@.len(),
        ensures
            c == self.color_buffer@[index as int],
    {
        self.color_buffer[index]
    }

    /// Finds the strip owning logical `index`, returning its index and the
    /// buffer position its LEDs start at. An index beyond every strip is a
    /// configuration error (a translation array out of step with the strip
    /// geometry) and is excluded by the precondition.
    fn belongs_to(&self, index: usize) -> (r: (usize, usize))
        requires
            self.wf(),
            index < self.color_buffer@.len(),
        ensures
            r.0 == spec_owner_of(self.strips@, index as int),
            r.0 < self.strips@.len(),
            r.1 == spec_strip_start(self.strips@, r.0 as int),
            r.1 <= index < r.1 + self.strips@[r.0 as int].led_count,
    {
        let n_colors = self.color_buffer.len();
        let mut start: usize = 0;
        let mut k: usize = 0;
        let n = self.strips.len();
        while k < n
            invariant
                self.wf(),
                n == self.strips@.len(),
                n_colors == self.color_buffer@.len(),
                k <= n,
                start == spec_strip_start(self.strips@, k as int),
                index < self.color_buffer@.len(),
                spec_owner_of(self.strips@, index as int) == spec_owner_from(
                    self.strips@,
                    index as int,
                    k as int,
                ),
                index >= start,
            decreases n - k,
        {
            proof {
                lemma_strip_start_monotone(self.strips@, k as int + 1, self.strips@.len() as int);
            }
            let end = start + self.strips[k].led_count;

            if index < end {
                return (k, start);
            }

            start = end;
            k = k + 1;
        }
        // Unreachable: the last strip's range ends at the buffer length, and
        // the precondition keeps the index below it.
        proof {
            assert(false);
        }
        (0, 0)
    }

    /// Writes `color` at `index`: the stored color takes the gamma-corrected
    /// channels, and the wire bytes take the raw channels at the owning
    /// strip's channel-order positions of the direction-corrected position.
    pub fn set_color_at_index(&mut self, index: usize, color: Color)
        requires
            old(self).wf(),
            index < old(self).color_buffer@.len(),
        ensures
            final(self).wf(),
            final(self).strips@ == old(self).strips@,
            final(self).color_buffer@ == old(self).color_buffer@.update(
                index as int,
                spec_gamma_color(color),
            ),
            final(self).byte_buffer@ == spec_bytes_after_set(
                old(self).strips@,
                old(self).byte_buffer@,
                index as int,
                color,
            ),
    {
        let n_colors = self.color_buffer.len();
        let n_bytes = self.byte_buffer.len();
        let mut stored = self.color_buffer[index];
        stored.set_color(color);
        self.color_buffer.set(index, stored);

        let (belongs_to, start) = self.belongs_to(index);
        let reversed = self.strips[belongs_to].reversed;
        let led_count = self.strips[belongs_to].led_count;
        let offs = self.strips[belongs_to].color_order.offsets();

        proof {
            lemma_strip_start_monotone(
                self.strips@,
                belongs_to as int + 1,
                self.strips@.len() as int,
            );
            assert(spec_strip_start(self.strips@, belongs_to as int)
                + self.strips@[belongs_to as int].led_count == spec_strip_start(
                self.strips@,
                belongs_to as int + 1,
            ));
            assert(start + led_count <= n_colors);
        }
        let physical_index = if reversed {
            let index_offset = index - start;
            start + (led_count - 1 - index_offset)
        } else {
            index
        };
        proof {
            assert(physical_index < n_colors);
        }

        self.byte_buffer.set(3 * physical_index + offs[0], color.r);
        self.byte_buffer.set(3 * physical_index + offs[1], color.g);
        self.byte_buffer.set(3 * physical_index + offs[2], color.b);
    }

    /// Fills the entire logical color buffer with one color (through gamma
    /// correction); the wire bytes are not touched by this call.
    pub fn set_strip_to_solid_color(&mut self, color: Color)
        requires
            old(self).wf(),
        ensures
            final(self).wf(),
            final(self).strips@ == old(self).strips@,
            final(self).byte_buffer@ == old(self).byte_buffer@,
            final(self).color_buffer@ == Seq::new(
                old(self).color_buffer@.len(),
                |i: int| spec_gamma_color(color),
            ),
    {
        let n = self.color_buffer.len();
        let mut i: usize = 0;
        while i < n
            invariant
                n == self.color_buffer@.len(),
                self.color_buffer@.len() == old(self).color_buffer@.len(),
                self.byte_buffer@ == old(self).byte_buffer@,
                self.strips@ == old(self).strips@,
                i <= n,
                forall|j: int| 0 <= j < i ==> self.color_buffer@[j] == spec_gamma_color(color),
            decreases n - i,
        {
            let mut stored = self.color_buffer[i];
            stored.set_color(color);
            self.color_buffer.set(i, stored);
            i = i + 1;
        }
        proof {
            assert(final(self).color_buffer@ =~= Seq::new(
                old(self).color_buffer@.len(),
                |i: int| spec_gamma_color(color),
            ));
        }
    }

    /// The byte range of strip `k` within the wire byte buffer.
    pub fn strip_byte_range(&self, strip_index: usize) -> (r: (usize, usize))
        requires
            self.wf(),
            strip_index < self.strips@.len(),
        ensures
            r.0 == 3 * spec_strip_start(self.strips@, strip_index as int),
            r.1 == 3 * (spec_strip_start(self.strips@, strip_index as int)
                + self.strips@[strip_index as int].led_count),
            r.0 <= r.1 <= self.byte_buffer@.len(),
    {
        let n_colors = self.color_buffer.len();
        let n_bytes = self.byte_buffer.len();
        let mut start: usize = 0;
        let mut k: usize = 0;
        while k < strip_index
            invariant
                k <= strip_index,
                strip_index < self.strips@.len(),
                self.wf(),
                n_colors == self.color_buffer@.len(),
                n_bytes == self.byte_buffer@.len(),
                start == spec_strip_start(self.strips@, k as int),
                start <= n_colors,
            decreases strip_index - k,
        {
            proof {
                lemma_strip_start_monotone(self.strips@, k as int + 1, self.strips@.len() as int);
            }
            start = start + self.strips[k].led_count;
            k = k + 1;
        }
        proof {
            lemma_strip_start_monotone(
                self.strips@,
                strip_index as int + 1,
                self.strips@.len() as int,
            );
        }
        let end = start + self.strips[strip_index].led_count;
        (3 * start, 3 * end)
    }

    /// The bits of strip `k`'s wire bytes, most significant bit of each byte
    /// first, ready for the protocol loop to consume in order.
    pub fn bits_for_strip(&self, strip_index: usize) -> (bits: Vec<bool>)
        requires
            self.wf(),
            strip_index < self.strips@.len(),
            24 * self.strips@[strip_index as int].led_count <= usize::MAX,
        ensures
            bits@.len() == 8 * 3 * self.strips@[strip_index as int].led_count,
            forall|j: int|
                0 <= j < bits@.len() ==> bits@[j] == spec_bit_of_byte(
                    self.byte_buffer@[3 * spec_strip_start(self.strips@, strip_index as int) + j
                        / 8],
                    j % 8,
                ),
    {
        let (byte_start, byte_end) = self.strip_byte_range(strip_index);
        bytes_as_bits(self.byte_buffer.as_slice(), byte_start, byte_end)
    }
}

/// Converts the byte range `from..to` into its bit sequence, each byte most
/// significant bit first. Channel order only affects how bytes are
/// assembled; the bit order within each byte is always the same.
pub fn bytes_as_bits(bytes: &[u8], from: usize, to: usize) -> (bits: Vec<bool>)
    requires
        from <= to <= bytes@.len(),
        8 * (to - from) <= usize::MAX,
    ensures
        bits@.len() == 8 * (to - from),
        forall|j: int|
            0 <= j < bits@.len() ==> bits@[j] == spec_bit_of_byte(bytes@[from + j / 8], j % 8),
{
    let count = to - from;
    let total: usize = 8 * count;
    let mut bits: Vec<bool> = Vec::new();
    let mut j: usize = 0;
    while j < total
        invariant
            from <= to <= bytes@.len(),
            total == 8 * (to - from),
            j <= total,
            bits@.len() == j,
            forall|m: int|
                0 <= m < j ==> bits@[m] == spec_bit_of_byte(bytes@[from + m / 8], m % 8),
        decreases total - j,
    {
        let byte = bytes[from + j / 8];
        let shift: u32 = (7 - (j % 8)) as u32;
        let bit = (byte >> shift) & 1 == 1;
        proof {
            assert(0 <= (j as int) % 8 < 8) by {
                vstd::arithmetic::div_mod::lemma_mod_bound(j as int, 8);
            }
            assert(from + (j as int) / 8 < to) by {
                vstd::arithmetic::div_mod::lemma_div_is_ordered(j as int, total as int - 1, 8);
                assert((total as int - 1) / 8 == (to - from) - 1) by {
                    vstd::arithmetic::div_mod::lemma_fundamental_div_mod(total as int - 1, 8);
                }
            }
            assert(bit == spec_bit_of_byte(bytes@[from + (j as int) / 8], (j as int) % 8));
        }
        bits.push(bit);
        j = j + 1;
    }
    bits
}

} // verus!
