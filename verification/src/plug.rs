//! The deterministic matcher: a captured frame is reduced over a clipped
//! target region to a bit mask and compared against the stored calibration
//! mask.

use vstd::prelude::*;
use vstd::arithmetic::div_mod::lemma_fundamental_div_mod_converse;

use crate::bits::{bv_bits, bv_count_ones, bv_len, bv_push, bv_with_capacity, bv_xor, ones};
use crate::config::{channel_value, rounded_ratio, Channel, Target, TargetSpec};

verus! {

/// A clipped rectangular sampling window: columns `x0..x1`, rows `y0..y1`.
#[derive(Clone, Copy, Debug, PartialEq, Eq, Structural)]
pub struct Rect {
    pub x0: usize,
    pub y0: usize,
    pub x1: usize,
    pub y1: usize,
}

/// One captured frame: packed four-byte pixels, blue first, alpha last, rows
/// `rowstride` bytes apart.
pub struct Capture {
    pub width: usize,
    pub height: usize,
    pub rowstride: usize,
    pub bytes: Vec<u8>,
}

/// Why raw image data could not become a `Capture`.
#[derive(Clone, Copy, Debug, PartialEq, Eq, Structural)]
pub enum FromPixbufError {
    /// The source image was not RGB.
    Colorspace,
    /// The source image did not carry four channels per pixel.
    ChannelCount,
    /// The source image had no alpha channel.
    NoAlpha,
    /// The buffer is too small for the claimed geometry.
    Layout,
}

/// Why a frame could not be matched against a target.
#[derive(Clone, Copy, Debug, PartialEq, Eq, Structural)]
pub enum MatchError {
    /// The target's centre lies outside the frame, or its region arithmetic
    /// would overflow.
    OutOfBounds,
    /// The stored mask's length differs from the pixel count of the region
    /// the frame yields.
    LengthMismatch { expected: usize, actual: usize },
}

impl Capture {
    /// Rows are wide enough for the pixels they hold, and every row lies
    /// inside the buffer.
    pub open spec fn wf(&self) -> bool {
        &&& 4 * self.width <= self.rowstride
        &&& self.rowstride * self.height <= self.bytes@.len()
    }

    /// The four bytes of the pixel at `(x, y)` lie inside the buffer.
    pub open spec fn sample_ok(&self, x: int, y: int) -> bool {
        self.rowstride * y + 4 * x + 3 < self.bytes@.len()
    }

    pub open spec fn blue_at(&self, x: int, y: int) -> u8 {
        self.bytes@[self.rowstride * y + 4 * x]
    }

    pub open spec fn green_at(&self, x: int, y: int) -> u8 {
        self.bytes@[self.rowstride * y + 4 * x + 1]
    }

    pub open spec fn red_at(&self, x: int, y: int) -> u8 {
        self.bytes@[self.rowstride * y + 4 * x + 2]
    }

    pub open spec fn alpha_at(&self, x: int, y: int) -> u8 {
        self.bytes@[self.rowstride * y + 4 * x + 3]
    }

    /// The scalar channel `c` reads from the pixel at `(x, y)`.
    pub open spec fn value_at(&self, c: Channel, x: int, y: int) -> int {
        channel_value(c, self.red_at(x, y) as int, self.green_at(x, y) as int, self.blue_at(x, y) as int)
    }

    /// The red, green, blue and alpha components of the pixel at `(x, y)`, or
    /// `None` when the pixel lies outside the buffer.
    pub fn at(&self, x: usize, y: usize) -> (r: Option<(u8, u8, u8, u8)>)
        ensures
            self.sample_ok(x as int, y as int) ==> r == Some(
                (
                    self.red_at(x as int, y as int),
                    self.green_at(x as int, y as int),
                    self.blue_at(x as int, y as int),
                    self.alpha_at(x as int, y as int),
                ),
            ),
            !self.sample_ok(x as int, y as int) ==> r is None,
    {
        let n = self.bytes.len();
        let row = match self.rowstride.checked_mul(y) {
            Some(v) => v,
            None => {
                return None;
            },
        };
        let col = match x.checked_mul(4) {
            Some(v) => v,
            None => {
                return None;
            },
        };
        let i = match row.checked_add(col) {
            Some(v) => v,
            None => {
                return None;
            },
        };
        if i >= n || n - i <= 3 {
            return None;
        }
        Some((self.bytes[i + 2], self.bytes[i + 1], self.bytes[i], self.bytes[i + 3]))
    }

    /// The region a target selects on this frame: `size / 2` pixels each way
    /// from the centre, the far edges exclusive, clipped to the frame. The
    /// result never extends past the frame, so an edge-adjacent target yields
    /// an asymmetric region rather than a shifted one.
    pub open spec fn spec_dims(&self, t: TargetSpec) -> Rect {
        let half = t.size as int / 2;
        Rect {
            x0: if t.x < half { 0 } else { (t.x - half) as usize },
            x1: if t.x + half + 1 < self.width { (t.x + half + 1) as usize } else { self.width },
            y0: if t.y < half { 0 } else { (t.y - half) as usize },
            y1: if t.y + half + 1 < self.height { (t.y + half + 1) as usize } else { self.height },
        }
    }

    /// The clipped sampling window `target` selects on this frame.
    pub fn dims(&self, target: &TargetSpec) -> (r: Rect)
        requires
            target.fits(),
        ensures
            r == self.spec_dims(*target),
            r.x1 <= self.width,
            r.y1 <= self.height,
            target.x <= self.width ==> r.x0 <= r.x1,
            target.y <= self.height ==> r.y0 <= r.y1,
    {
        let half = target.size / 2;

        let x1 = if target.x + half + 1 < self.width {
            target.x + half + 1
        } else {
            self.width
        };
        let x0 = if target.x < half {
            0
        } else {
            target.x - half
        };

        let y1 = if target.y + half + 1 < self.height {
            target.y + half + 1
        } else {
            self.height
        };
        let y0 = if target.y < half {
            0
        } else {
            target.y - half
        };

        Rect { x0, x1, y0, y1 }
    }

    /// The channel values of the region's pixels, row-major.
    pub open spec fn region_values(&self, t: TargetSpec) -> Seq<int> {
        let d = self.spec_dims(t);
        let w = d.x1 - d.x0;
        let h = d.y1 - d.y0;
        Seq::new((h * w) as nat, |k: int| self.value_at(t.channel, d.x0 + k % w, d.y0 + k / w))
    }

    /// The target's centre lies on the frame and its region arithmetic stays
    /// within `usize`.
    pub open spec fn admits(&self, t: TargetSpec) -> bool {
        &&& t.fits()
        &&& t.x <= self.width
        &&& t.y <= self.height
    }

    /// The bit mask a target reads off this frame: every region pixel's
    /// channel value, linearly rescaled over the region's value range, tested
    /// against the threshold.
    pub open spec fn spec_extract(&self, t: TargetSpec) -> Seq<bool> {
        let vs = self.region_values(t);
        let lo = lo_of(vs);
        let hi = hi_of(vs);
        Seq::new(vs.len(), |k: int| rescaled(vs[k], lo, hi) >= t.threshold)
    }

    /// The bit mask `target` reads off this frame, row-major: each pixel's
    /// channel value is rescaled linearly from the region's value range into
    /// 0..=255 — or left unscaled when the region is uniform — and its bit is
    /// set exactly when the rescaled value reaches the threshold.
    pub fn extract(&self, target: &TargetSpec) -> (r: bit_vec::BitVec)
        requires
            self.wf(),
            self.admits(*target),
        ensures
            bv_bits(r) == self.spec_extract(*target),
    {
        let ghost vs = self.region_values(*target);

        let d = self.dims(target);
        let w = d.x1 - d.x0;
        let h = d.y1 - d.y0;

        let n = self.bytes.len();
        proof {
            lemma_region_size(*self, *target);
            assert(vs.len() <= n);
        }

        let mut min: u8 = 255;
        let mut max: u8 = 0;

        let mut k: usize = 0;
        let mut y = d.y0;
        while y < d.y1
            invariant
                self.wf(),
                self.admits(*target),
                d == self.spec_dims(*target),
                w == d.x1 - d.x0,
                h == d.y1 - d.y0,
                d.x1 <= self.width,
                d.y1 <= self.height,
                vs == self.region_values(*target),
                vs.len() == h * w,
                vs.len() <= usize::MAX,
                d.y0 <= y <= d.y1,
                k == (y - d.y0) * w,
                min == lo_of(vs.take(k as int)),
                max == hi_of(vs.take(k as int)),
            decreases d.y1 - y,
        {
            let mut x = d.x0;
            while x < d.x1
                invariant
                    self.wf(),
                    self.admits(*target),
                    d == self.spec_dims(*target),
                    w == d.x1 - d.x0,
                    h == d.y1 - d.y0,
                    d.x1 <= self.width,
                    d.y1 <= self.height,
                    vs == self.region_values(*target),
                    vs.len() == h * w,
                    vs.len() <= usize::MAX,
                    d.y0 <= y < d.y1,
                    d.x0 <= x <= d.x1,
                    k == (y - d.y0) * w + (x - d.x0),
                    min == lo_of(vs.take(k as int)),
                    max == hi_of(vs.take(k as int)),
                decreases d.x1 - x,
            {
                proof {
                    lemma_flat_index(*self, *target, x as int, y as int, k as int);
                    lemma_sample_in_bounds(*self, x as int, y as int);
                }
                let (red, green, blue, _) = self.at(x, y).unwrap();
                let value = target.channel.extract(red, green, blue);
                proof {
                    assert(vs.take(k + 1).drop_last() =~= vs.take(k as int));
                    assert(vs.take(k + 1).last() == vs[k as int]);
                    assert(vs[k as int] == value as int);
                }
                if value < min {
                    min = value;
                }
                if value > max {
                    max = value;
                }
                x = x + 1;
                k = k + 1;
            }
            proof {
                assert((y + 1 - d.y0) * w == (y - d.y0) * w + w) by (nonlinear_arith);
            }
            y = y + 1;
        }
        proof {
            assert(vs.take(vs.len() as int) =~= vs);
            assert(w * h == h * w) by (nonlinear_arith);
        }
        let mut buffer = bv_with_capacity(w * h);

        let ghost out = self.spec_extract(*target);

        let mut k: usize = 0;
        let mut y = d.y0;
        while y < d.y1
            invariant
                self.wf(),
                self.admits(*target),
                d == self.spec_dims(*target),
                w == d.x1 - d.x0,
                h == d.y1 - d.y0,
                d.x1 <= self.width,
                d.y1 <= self.height,
                vs == self.region_values(*target),
                vs.len() == h * w,
                vs.len() <= usize::MAX,
                min == lo_of(vs),
                max == hi_of(vs),
                out == self.spec_extract(*target),
                out.len() == vs.len(),
                d.y0 <= y <= d.y1,
                k == (y - d.y0) * w,
                bv_bits(buffer) == out.take(k as int),
            decreases d.y1 - y,
        {
            let mut x = d.x0;
            while x < d.x1
                invariant
                    self.wf(),
                    self.admits(*target),
                    d == self.spec_dims(*target),
                    w == d.x1 - d.x0,
                    h == d.y1 - d.y0,
                    d.x1 <= self.width,
                    d.y1 <= self.height,
                    vs == self.region_values(*target),
                    vs.len() == h * w,
                    vs.len() <= usize::MAX,
                    min == lo_of(vs),
                    max == hi_of(vs),
                    out == self.spec_extract(*target),
                    out.len() == vs.len(),
                    d.y0 <= y < d.y1,
                    d.x0 <= x <= d.x1,
                    k == (y - d.y0) * w + (x - d.x0),
                    bv_bits(buffer) == out.take(k as int),
                decreases d.x1 - x,
            {
                proof {
                    lemma_flat_index(*self, *target, x as int, y as int, k as int);
                    lemma_sample_in_bounds(*self, x as int, y as int);
                    lemma_lo_hi_bound(vs, k as int);
                }
                let (red, green, blue, _) = self.at(x, y).unwrap();
                let value = target.channel.extract(red, green, blue);

                let bit: bool;
                if max == min {
                    bit = value >= target.threshold;
                } else {
                    let num: u32 = 510 * ((value - min) as u32) + ((max - min) as u32);
                    let scaled: u32 = num / (2 * ((max - min) as u32));
                    proof {
                        let n = 255 * (value as int - min as int);
                        assert(num == 2 * n + (max as int - min as int));
                        assert(scaled == rounded_ratio(n, max as int - min as int));
                    }
                    bit = scaled >= target.threshold as u32;
                }
                proof {
                    assert(bit == out[k as int]);
                    assert(out.take(k + 1).drop_last() =~= out.take(k as int));
                    assert(out.take(k + 1).last() == out[k as int]);
                }
                bv_push(&mut buffer, bit);
                proof {
                    assert(bv_bits(buffer) =~= out.take(k + 1));
                }
                x = x + 1;
                k = k + 1;
            }
            proof {
                assert((y + 1 - d.y0) * w == (y - d.y0) * w + w) by (nonlinear_arith);
            }
            y = y + 1;
        }
        proof {
            assert(out.take(out.len() as int) =~= out);
        }
        buffer
    }
}

/// The bits set in exactly one of two equal-length masks.
pub open spec fn xor_bits(a: Seq<bool>, b: Seq<bool>) -> Seq<bool> {
    Seq::new(a.len(), |i: int| a[i] != b[i])
}

/// The Hamming distance: how many positions of two equal-length masks differ.
pub open spec fn spec_distance(a: Seq<bool>, b: Seq<bool>) -> nat {
    ones(xor_bits(a, b))
}

impl Capture {
    /// Whether this frame matches a target: the mask read off the frame lies
    /// strictly fewer than `count` bit differences from the stored mask.
    pub open spec fn spec_matches(&self, t: Target) -> bool {
        spec_distance(self.spec_extract(t.spec), bv_bits(t.mask)) < t.spec.count
    }

    /// Matches this frame against a calibrated target: the mask is read off
    /// the live frame, xored bit for bit against the stored mask, and the set
    /// bits counted; the frame matches exactly when that distance is strictly
    /// below the target's tolerance — a distance equal to the tolerance is no
    /// match. A target whose region leaves the frame, or whose stored mask
    /// has the wrong length, is a fatal configuration error, never a silent
    /// truncation.
    pub fn check(&self, target: &Target) -> (r: Result<bool, MatchError>)
        requires
            self.wf(),
        ensures
            !self.admits(target.spec) ==> r == Err::<bool, MatchError>(MatchError::OutOfBounds),
            self.admits(target.spec) && bv_bits(target.mask).len() != self.spec_extract(
                target.spec,
            ).len() ==> r == Err::<bool, MatchError>(
                MatchError::LengthMismatch {
                    expected: self.spec_extract(target.spec).len() as usize,
                    actual: bv_bits(target.mask).len() as usize,
                },
            ),
            self.admits(target.spec) && bv_bits(target.mask).len() == self.spec_extract(
                target.spec,
            ).len() ==> r == Ok::<bool, MatchError>(self.spec_matches(*target)),
    {
        let half = target.spec.size / 2;
        proof {
            assert(half < usize::MAX) by (nonlinear_arith)
                requires
                    half == target.spec.size as int / 2,
                    target.spec.size <= usize::MAX,
            ;
        }
        let lim = usize::MAX - half - 1;
        if target.spec.x > lim || target.spec.y > lim || target.spec.x > self.width
            || target.spec.y > self.height {
            return Err(MatchError::OutOfBounds);
        }

        let mut actual = self.extract(&target.spec);
        let expected = bv_len(&actual);
        let stored = bv_len(&target.mask);
        if expected != stored {
            return Err(MatchError::LengthMismatch { expected, actual: stored });
        }

        bv_xor(&mut actual, &target.mask);
        proof {
            assert(bv_bits(actual) =~= xor_bits(self.spec_extract(target.spec), bv_bits(target.mask)));
        }
        let distance = bv_count_ones(&actual);

        Ok(distance < target.spec.count as u64)
    }

    /// Builds a frame from raw image data: the source must be RGB with four
    /// channels per pixel, the last of them alpha, and the buffer must cover
    /// the claimed geometry.
    pub fn from_raw(
        rgb: bool,
        has_alpha: bool,
        n_channels: u32,
        width: usize,
        height: usize,
        rowstride: usize,
        bytes: Vec<u8>,
    ) -> (r: Result<Capture, FromPixbufError>)
        ensures
            !rgb ==> r == Err::<Capture, FromPixbufError>(FromPixbufError::Colorspace),
            rgb && n_channels != 4 ==> r == Err::<Capture, FromPixbufError>(
                FromPixbufError::ChannelCount,
            ),
            rgb && n_channels == 4 && !has_alpha ==> r == Err::<Capture, FromPixbufError>(
                FromPixbufError::NoAlpha,
            ),
            rgb && n_channels == 4 && has_alpha && !(4 * width <= rowstride && rowstride * height
                <= bytes@.len()) ==> r == Err::<Capture, FromPixbufError>(FromPixbufError::Layout),
            r matches Ok(c) ==> {
                &&& rgb && n_channels == 4 && has_alpha
                &&& c.width == width && c.height == height && c.rowstride == rowstride
                &&& c.bytes@ == bytes@
                &&& c.wf()
            },
    {
        if !rgb {
            return Err(FromPixbufError::Colorspace);
        }
        if n_channels != 4 {
            return Err(FromPixbufError::ChannelCount);
        }
        if !has_alpha {
            return Err(FromPixbufError::NoAlpha);
        }
        let row_bytes = match width.checked_mul(4) {
            Some(v) => v,
            None => {
                return Err(FromPixbufError::Layout);
            },
        };
        let used = match rowstride.checked_mul(height) {
            Some(v) => v,
            None => {
                return Err(FromPixbufError::Layout);
            },
        };
        if row_bytes > rowstride || used > bytes.len() {
            return Err(FromPixbufError::Layout);
        }
        Ok(Capture { width, height, rowstride, bytes })
    }
}

/// In a uniform region every mask bit is the same: set when the shared,
/// unscaled channel value reaches the threshold, clear otherwise.
pub proof fn lemma_uniform_region(cap: Capture, t: TargetSpec, v: int)
    requires
        0 <= v <= 255,
        forall|k: int|
            0 <= k < cap.region_values(t).len() ==> cap.region_values(t)[k] == v,
    ensures
        forall|k: int|
            0 <= k < cap.spec_extract(t).len() ==> cap.spec_extract(t)[k] == (v >= t.threshold),
{
    let vs = cap.region_values(t);
    if vs.len() > 0 {
        lemma_lo_hi_uniform(vs, v);
        assert(rescaled(v, v, v) == v);
    }
}

/// A uniform, non-empty sequence has its shared value as both extremes.
proof fn lemma_lo_hi_uniform(s: Seq<int>, v: int)
    requires
        s.len() > 0,
        0 <= v <= 255,
        forall|i: int| 0 <= i < s.len() ==> s[i] == v,
    ensures
        lo_of(s) == v,
        hi_of(s) == v,
    decreases s.len(),
{
    if s.len() == 1 {
        assert(s.drop_last().len() == 0);
        assert(lo_of(s.drop_last()) == 255);
        assert(hi_of(s.drop_last()) == 0);
        assert(s.last() == v);
    } else {
        assert(forall|i: int| 0 <= i < s.drop_last().len() ==> s.drop_last()[i] == s[i]);
        lemma_lo_hi_uniform(s.drop_last(), v);
    }
}

/// A sequence with no set bit counts zero ones.
proof fn lemma_ones_none_set(s: Seq<bool>)
    requires
        forall|i: int| 0 <= i < s.len() ==> !s[i],
    ensures
        ones(s) == 0,
    decreases s.len(),
{
    if s.len() > 0 {
        assert(forall|i: int| 0 <= i < s.drop_last().len() ==> s.drop_last()[i] == s[i]);
        lemma_ones_none_set(s.drop_last());
    }
}

/// A mask identical to what the frame yields lies at distance zero, so the
/// match verdict is exactly whether zero is below the tolerance: with a
/// tolerance of zero the frame does not match, the bound being strict.
pub proof fn lemma_identical_mask(cap: Capture, t: Target)
    requires
        bv_bits(t.mask) == cap.spec_extract(t.spec),
    ensures
        spec_distance(cap.spec_extract(t.spec), bv_bits(t.mask)) == 0,
        cap.spec_matches(t) <==> t.spec.count > 0,
{
    let a = cap.spec_extract(t.spec);
    let x = xor_bits(a, a);
    assert(forall|i: int| 0 <= i < x.len() ==> !x[i]);
    lemma_ones_none_set(x);
}

/// The smallest element of `s`, or 255 — one above every channel value — for
/// an empty region.
pub open spec fn lo_of(s: Seq<int>) -> int
    decreases s.len(),
{
    if s.len() == 0 {
        255
    } else {
        let p = lo_of(s.drop_last());
        if s.last() < p {
            s.last()
        } else {
            p
        }
    }
}

/// The largest element of `s`, or 0 for an empty region.
pub open spec fn hi_of(s: Seq<int>) -> int
    decreases s.len(),
{
    if s.len() == 0 {
        0
    } else {
        let p = hi_of(s.drop_last());
        if s.last() > p {
            s.last()
        } else {
            p
        }
    }
}

/// `v` rescaled linearly from `lo..=hi` into `0..=255`, rounding to the
/// nearest integer; a degenerate range leaves the value unscaled.
pub open spec fn rescaled(v: int, lo: int, hi: int) -> int {
    if hi == lo {
        v
    } else {
        rounded_ratio(255 * (v - lo), hi - lo)
    }
}

/// Every element lies between `lo_of` and `hi_of`.
proof fn lemma_lo_hi_bound(s: Seq<int>, i: int)
    requires
        0 <= i < s.len(),
    ensures
        lo_of(s) <= s[i],
        s[i] <= hi_of(s),
    decreases s.len(),
{
    if i == s.len() - 1 {
        assert(s.last() == s[i]);
    } else {
        lemma_lo_hi_bound(s.drop_last(), i);
        assert(s.drop_last()[i] == s[i]);
    }
}

/// The flattened row-major index selects the pixel the loops visit.
proof fn lemma_flat_index(cap: Capture, t: TargetSpec, x: int, y: int, k: int)
    requires
        cap.admits(t),
        cap.spec_dims(t).x0 <= x < cap.spec_dims(t).x1,
        cap.spec_dims(t).y0 <= y < cap.spec_dims(t).y1,
        k == (y - cap.spec_dims(t).y0) * (cap.spec_dims(t).x1 - cap.spec_dims(t).x0) + (x
            - cap.spec_dims(t).x0),
    ensures
        0 <= k < cap.region_values(t).len(),
        cap.region_values(t)[k] == cap.value_at(t.channel, x, y),
{
    let d = cap.spec_dims(t);
    let w = d.x1 - d.x0;
    let h = d.y1 - d.y0;
    assert(0 <= k < h * w && (y - d.y0) * w + w <= h * w) by (nonlinear_arith)
        requires
            0 < w,
            0 <= y - d.y0 < h,
            0 <= x - d.x0 < w,
            k == (y - d.y0) * w + (x - d.x0),
    ;
    lemma_fundamental_div_mod_converse(k, w, y - d.y0, x - d.x0);
}

/// In a well-formed frame every region pixel can be sampled.
proof fn lemma_sample_in_bounds(cap: Capture, x: int, y: int)
    requires
        cap.wf(),
        0 <= x < cap.width,
        0 <= y < cap.height,
    ensures
        cap.sample_ok(x, y),
{
    assert(cap.rowstride * y + 4 * x + 3 < cap.rowstride * cap.height) by (nonlinear_arith)
        requires
            4 * cap.width <= cap.rowstride,
            0 <= x < cap.width,
            0 <= y < cap.height,
    ;
}

/// A region never holds more pixels than the frame holds bytes.
proof fn lemma_region_size(cap: Capture, t: TargetSpec)
    requires
        cap.wf(),
        cap.admits(t),
    ensures
        (cap.spec_dims(t).y1 - cap.spec_dims(t).y0) * (cap.spec_dims(t).x1 - cap.spec_dims(t).x0)
            <= cap.bytes@.len(),
        cap.spec_dims(t).x0 <= cap.spec_dims(t).x1 <= cap.width,
        cap.spec_dims(t).y0 <= cap.spec_dims(t).y1 <= cap.height,
{
    let d = cap.spec_dims(t);
    let w = d.x1 - d.x0;
    let h = d.y1 - d.y0;
    assert(h * w <= cap.rowstride * cap.height) by (nonlinear_arith)
        requires
            4 * cap.width <= cap.rowstride,
            0 <= w <= cap.width,
            0 <= h <= cap.height,
    ;
}

} // verus!
