//! RGB colors and the asymmetric smoothing the output driver applies: the
//! device color rises quickly toward a brighter request (60/40 blend) and
//! decays slowly toward a darker one (40/60 blend).

use vstd::prelude::*;

verus! {

/// One RGB color, one byte per channel.
#[derive(Clone, Copy, PartialEq, Eq, Structural, Debug)]
pub struct Rgb8 {
    pub r: u8,
    pub g: u8,
    pub b: u8,
}

/// The color with every channel dark.
pub open spec fn black() -> Rgb8 {
    Rgb8 { r: 0, g: 0, b: 0 }
}

/// Addition of two channel values, saturating at the top of the byte range.
pub open spec fn sat_add_channel(a: int, b: int) -> int {
    if a + b > 255 {
        255
    } else {
        a + b
    }
}

/// One channel of the smoothing blend: `tenths` tenths of the current value
/// plus the complementary share of the requested value, each share rounded
/// down as integer division does.
pub open spec fn blend_channel(cur: int, req: int, cur_tenths: int) -> int {
    sat_add_channel(cur * cur_tenths / 10, req * (10 - cur_tenths) / 10)
}

/// The smoothed color: when the requested color is brighter (larger channel
/// sum) the blend moves 6 tenths toward it, otherwise only 4 tenths.
pub open spec fn smooth_spec(cur: Rgb8, req: Rgb8) -> Rgb8 {
    let cur_tenths: int = if req.sum() > cur.sum() {
        4
    } else {
        6
    };
    Rgb8 {
        r: blend_channel(cur.r as int, req.r as int, cur_tenths) as u8,
        g: blend_channel(cur.g as int, req.g as int, cur_tenths) as u8,
        b: blend_channel(cur.b as int, req.b as int, cur_tenths) as u8,
    }
}

impl Rgb8 {
    /// The summed channel magnitude, the brightness measure the smoothing
    /// compares.
    pub open spec fn sum(self) -> int {
        self.r + self.g + self.b
    }

    /// The summed channel magnitude, for run-time comparison of brightness.
    pub fn channel_sum(self) -> (s: u16)
        ensures
            s == self.sum(),
    {
        self.r as u16 + self.g as u16 + self.b as u16
    }

    /// Per-channel addition, saturating at 255 in each channel.
    pub fn saturating_add(self, rhs: Rgb8) -> (c: Rgb8)
        ensures
            c.r == sat_add_channel(self.r as int, rhs.r as int),
            c.g == sat_add_channel(self.g as int, rhs.g as int),
            c.b == sat_add_channel(self.b as int, rhs.b as int),
    {
        Rgb8 {
            r: sat_add_byte(self.r, rhs.r),
            g: sat_add_byte(self.g, rhs.g),
            b: sat_add_byte(self.b, rhs.b),
        }
    }

    /// Scales every channel to `tenths` tenths of its value, rounding down.
    pub fn brightness_tenths(self, tenths: u8) -> (c: Rgb8)
        requires
            tenths <= 10,
        ensures
            c.r == self.r * tenths / 10,
            c.g == self.g * tenths / 10,
            c.b == self.b * tenths / 10,
    {
        Rgb8 {
            r: scale_tenths(self.r, tenths),
            g: scale_tenths(self.g, tenths),
            b: scale_tenths(self.b, tenths),
        }
    }
}

/// Saturating addition of two channel bytes.
fn sat_add_byte(a: u8, b: u8) -> (c: u8)
    ensures
        c == sat_add_channel(a as int, b as int),
{
    let s: u16 = a as u16 + b as u16;
    if s > 255 {
        255
    } else {
        s as u8
    }
}

/// `v * tenths / 10`, rounded down; stays within the byte range for
/// `tenths <= 10`.
fn scale_tenths(v: u8, tenths: u8) -> (r: u8)
    requires
        tenths <= 10,
    ensures
        r == v * tenths / 10,
{
    assert(v as int * tenths as int <= 255 * 10) by (nonlinear_arith)
        requires
            v <= 255 && tenths <= 10,
    ;
    let w: u16 = v as u16 * tenths as u16 / 10;
    w as u8
}

/// Blends the device color toward a requested color: 6 tenths of the way when
/// the request is brighter than the current color, 4 tenths of the way when it
/// is darker or equally bright. Rise is fast, decay is slow.
pub fn smooth_color(from: Rgb8, to: Rgb8) -> (c: Rgb8)
    ensures
        c == smooth_spec(from, to),
{
    let keep: u8 = if to.channel_sum() > from.channel_sum() {
        4
    } else {
        6
    };
    let kept = from.brightness_tenths(keep);
    let taken = to.brightness_tenths(10 - keep);
    kept.saturating_add(taken)
}

/// Smoothing toward black leaves black fixed, and strictly dims any other
/// color: its channel sum decreases on every step, so repeated smoothing of a
/// silent request settles the device color at black.
pub proof fn lemma_smooth_to_black(cur: Rgb8)
    ensures
        cur == black() ==> smooth_spec(cur, black()) == black(),
        cur != black() ==> smooth_spec(cur, black()).sum() < cur.sum(),
{
    let s = smooth_spec(cur, black());
    assert(s.r == cur.r * 6 / 10);
    assert(s.g == cur.g * 6 / 10);
    assert(s.b == cur.b * 6 / 10);
    assert(cur.r > 0 ==> cur.r * 6 / 10 < cur.r);
    assert(cur.g > 0 ==> cur.g * 6 / 10 < cur.g);
    assert(cur.b > 0 ==> cur.b * 6 / 10 < cur.b);
    if cur != black() {
        assert(cur.r > 0 || cur.g > 0 || cur.b > 0);
    }
}

/// The device color after `k` smoothing steps, each toward a silent (black)
/// request.
pub open spec fn smooth_iter_black(cur: Rgb8, k: nat) -> Rgb8
    decreases k,
{
    if k == 0 {
        cur
    } else {
        smooth_iter_black(smooth_spec(cur, black()), (k - 1) as nat)
    }
}

/// Repeated silence settles the device at black: once at least as many
/// smoothing steps have passed as the starting channel sum, the device color
/// is black — and, black being a fixed point, it stays black.
pub proof fn lemma_silence_settles_at_black(cur: Rgb8, k: nat)
    requires
        k >= cur.sum(),
    ensures
        smooth_iter_black(cur, k) == black(),
    decreases k,
{
    lemma_smooth_to_black(cur);
    if k == 0 {
        assert(cur.sum() == 0);
        assert(cur == black());
    } else {
        let next = smooth_spec(cur, black());
        if cur == black() {
            lemma_silence_settles_at_black(next, (k - 1) as nat);
        } else {
            assert(next.sum() < cur.sum());
            lemma_silence_settles_at_black(next, (k - 1) as nat);
        }
    }
}

} // verus!
