//! The addressable LED strip: pixel colors, intensity scaling, and the
//! transmitted buffer.
//!
//! A `Strip` holds the authoritative in-memory colors of an `n`-pixel strip.
//! Every mutating operation leaves the buffer in exactly the state that was
//! last transmitted to the hardware, so the view of a `Strip` is always the
//! visible state of the physical strip.

use vstd::prelude::*;

verus! {

/// One pixel of the strip: three 8-bit color channels.
#[derive(Clone, Copy, PartialEq, Eq, Structural, Debug)]
pub struct Pixel {
    pub r: u8,
    pub g: u8,
    pub b: u8,
}

impl Pixel {
    /// The color with every channel zero: the pixel is off.
    pub open spec fn spec_black() -> Pixel {
        Pixel { r: 0, g: 0, b: 0 }
    }

    /// Builds the all-zero color.
    pub fn black() -> (p: Pixel)
        ensures
            p == Pixel::spec_black(),
    {
        Pixel { r: 0, g: 0, b: 0 }
    }
}

/// One channel scaled by `intensity`: `channel * intensity / 255`, with
/// truncating integer division.
pub open spec fn spec_scale_channel(channel: u8, intensity: u8) -> u8 {
    ((channel as int * intensity as int) / 255) as u8
}

/// `color` with every channel scaled by `intensity`.
pub open spec fn spec_scale(color: Pixel, intensity: u8) -> Pixel {
    Pixel {
        r: spec_scale_channel(color.r, intensity),
        g: spec_scale_channel(color.g, intensity),
        b: spec_scale_channel(color.b, intensity),
    }
}

/// Scales a color by a brightness factor: each channel becomes
/// `channel * intensity / 255`, truncating. Intensity 255 keeps the color
/// unchanged and intensity 0 yields black.
pub fn scale_color(color: Pixel, intensity: u8) -> (scaled: Pixel)
    ensures
        scaled == spec_scale(color, intensity),
{
    proof {
        lemma_channel_product_bounds(color.r, intensity);
        lemma_channel_product_bounds(color.g, intensity);
        lemma_channel_product_bounds(color.b, intensity);
    }
    Pixel {
        r: ((color.r as u16 * intensity as u16) / 255) as u8,
        g: ((color.g as u16 * intensity as u16) / 255) as u8,
        b: ((color.b as u16 * intensity as u16) / 255) as u8,
    }
}

/// The product of two channel values fits in 16 bits, and its quotient by
/// 255 fits back into 8 bits.
proof fn lemma_channel_product_bounds(channel: u8, intensity: u8)
    ensures
        channel as int * intensity as int <= 65025,
        0 <= channel as int * intensity as int,
        (channel as int * intensity as int) / 255 <= 255,
{
    assert(channel as int * intensity as int <= 65025 && 0 <= channel as int * intensity as int)
        by (nonlinear_arith)
        requires
            channel as int <= 255,
            intensity as int <= 255,
            0 <= channel as int,
            0 <= intensity as int,
    ;
}

/// Scaling by full intensity returns the color unchanged: each channel is
/// `channel * 255 / 255 == channel` exactly.
pub proof fn lemma_scale_full_intensity(color: Pixel)
    ensures
        spec_scale(color, 255) == color,
{
}

/// Scaling by zero intensity yields black, whatever the color.
pub proof fn lemma_scale_zero_intensity(color: Pixel)
    ensures
        spec_scale(color, 0) == Pixel::spec_black(),
{
}

/// The all-black buffer of `len` pixels: the whole strip is off.
pub open spec fn spec_all_black(len: nat) -> Seq<Pixel> {
    Seq::new(len, |i: int| Pixel::spec_black())
}

/// The buffer transmitted by `Strip::turn_on_led`: all black except the
/// target index, which carries `color`; out-of-range indices leave the
/// whole buffer black.
pub open spec fn spec_turn_on(len: nat, target_index: int, color: Pixel) -> Seq<Pixel> {
    if 0 <= target_index < len {
        spec_all_black(len).update(target_index, color)
    } else {
        spec_all_black(len)
    }
}

/// The buffer transmitted by `Strip::turn_off_all_leds`: every pixel of the
/// given buffer turned off.
pub open spec fn spec_clear_all(buffer: Seq<Pixel>) -> Seq<Pixel> {
    spec_all_black(buffer.len())
}

/// The buffer transmitted by `Strip::turn_off_single_led`: the given buffer
/// with the target index blacked out, or unchanged when the index is out of
/// range.
pub open spec fn spec_turn_off_one(buffer: Seq<Pixel>, led_index: int) -> Seq<Pixel> {
    if 0 <= led_index < buffer.len() {
        buffer.update(led_index, Pixel::spec_black())
    } else {
        buffer
    }
}

/// Builds a vector of `n` black pixels.
fn all_black_vec(n: usize) -> (v: Vec<Pixel>)
    ensures
        v@ == spec_all_black(n as nat),
{
    let mut v: Vec<Pixel> = Vec::new();
    let mut i: usize = 0;
    while i < n
        invariant
            i <= n,
            v@.len() == i,
            forall|j: int| 0 <= j < i ==> v@[j] == Pixel::spec_black(),
        decreases n - i,
    {
        v.push(Pixel::black());
        i += 1;
    }
    assert(v@ =~= spec_all_black(n as nat));
    v
}

/// The driver of an addressable strip of pixels.
///
/// The buffer it holds is exactly what was last transmitted to the strip:
/// every mutating operation rewrites the buffer and transmits it in full
/// before returning, so no intermediate state is ever visible.
pub struct Strip {
    pixels: Vec<Pixel>,
}

impl View for Strip {
    type V = Seq<Pixel>;

    /// The last-transmitted buffer, pixel by pixel.
    closed spec fn view(&self) -> Seq<Pixel> {
        self.pixels@
    }
}

impl Strip {
    /// The number of pixels of the strip; fixed for the strip's lifetime.
    pub fn len(&self) -> (n: usize)
        ensures
            n == self@.len(),
    {
        self.pixels.len()
    }

    /// Reads one pixel of the last-transmitted buffer.
    pub fn get(&self, i: usize) -> (p: Pixel)
        requires
            i < self@.len(),
        ensures
            p == self@[i as int],
    {
        self.pixels[i]
    }

    /// Turns on one pixel: transmits a buffer that is black everywhere except
    /// `target_index`, which carries `color` scaled by `intensity`. An
    /// out-of-range index degrades to a full clear rather than an error.
    pub fn turn_on_led(&mut self, target_index: usize, color: Pixel, intensity: u8)
        ensures
            final(self)@ == spec_turn_on(
                old(self)@.len(),
                target_index as int,
                spec_scale(color, intensity),
            ),
            final(self)@.len() == old(self)@.len(),
    {
        let n = self.pixels.len();
        let mut leds = all_black_vec(n);
        if target_index < n {
            leds.set(target_index, scale_color(color, intensity));
        }
        self.pixels = leds;
    }

    /// Turns off every pixel: transmits the all-black buffer.
    pub fn turn_off_all_leds(&mut self)
        ensures
            final(self)@ == spec_clear_all(old(self)@),
            final(self)@.len() == old(self)@.len(),
    {
        let n = self.pixels.len();
        self.pixels = all_black_vec(n);
    }

    /// Turns off one pixel while preserving the others: blacks out
    /// `led_index` in the caller-held snapshot `current_state` (a no-op when
    /// the index is out of range) and transmits the resulting buffer, which
    /// becomes the strip's visible state.
    pub fn turn_off_single_led(&mut self, current_state: &mut Vec<Pixel>, led_index: usize)
        ensures
            final(current_state)@ == spec_turn_off_one(old(current_state)@, led_index as int),
            final(self)@ == final(current_state)@,
    {
        if led_index < current_state.len() {
            current_state.set(led_index, Pixel::black());
        }
        let mut copy: Vec<Pixel> = Vec::new();
        let mut i: usize = 0;
        let n = current_state.len();
        while i < n
            invariant
                i <= n,
                n == current_state@.len(),
                copy@ =~= current_state@.subrange(0, i as int),
            decreases n - i,
        {
            copy.push(current_state[i]);
            i += 1;
        }
        assert(copy@ =~= current_state@);
        self.pixels = copy;
    }
}

/// Builds a strip driver for `n` pixels with every pixel off, matching the
/// all-black buffer that is transmitted once at start-up.
pub fn init(n: usize) -> (strip: Strip)
    ensures
        strip@ == spec_all_black(n as nat),
        strip@.len() == n,
{
    Strip { pixels: all_black_vec(n) }
}

/// Turning on an in-range pixel at full intensity leaves that pixel carrying
/// the color exactly, and every other pixel black.
pub proof fn lemma_turn_on_full_intensity(len: nat, target_index: int, color: Pixel)
    requires
        0 <= target_index < len,
    ensures
        spec_turn_on(len, target_index, spec_scale(color, 255))[target_index] == color,
        forall|j: int|
            0 <= j < len && j != target_index ==> spec_turn_on(
                len,
                target_index,
                spec_scale(color, 255),
            )[j] == Pixel::spec_black(),
{
    lemma_scale_full_intensity(color);
}

/// Turning on an out-of-range pixel yields the all-black buffer, whatever
/// the color and intensity.
pub proof fn lemma_turn_on_out_of_range(len: nat, target_index: int, color: Pixel, intensity: u8)
    requires
        target_index >= len,
    ensures
        spec_turn_on(len, target_index, spec_scale(color, intensity)) == spec_all_black(len),
{
}

/// Clearing the whole strip is idempotent: clearing twice in a row leaves
/// the same observable buffer as clearing once.
pub proof fn lemma_turn_off_all_idempotent(buffer: Seq<Pixel>)
    ensures
        spec_clear_all(spec_clear_all(buffer)) == spec_clear_all(buffer),
{
}

/// Turning off a single pixel never touches the channels of any other
/// index: every sibling pixel keeps its value exactly.
pub proof fn lemma_turn_off_one_preserves_others(buffer: Seq<Pixel>, led_index: int, j: int)
    requires
        0 <= j < buffer.len(),
        j != led_index,
    ensures
        spec_turn_off_one(buffer, led_index).len() == buffer.len(),
        spec_turn_off_one(buffer, led_index)[j] == buffer[j],
{
}

} // verus!
