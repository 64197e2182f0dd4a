//! Playback clock: pure time arithmetic over a stream's rational time base.
//!
//! A frame's presentation timestamp (`pts`) is an integer tick count; the
//! time base `num/den` gives seconds per tick, so the frame's presentation
//! time in seconds is the rational `pts * num / den`. To stay in integer
//! arithmetic, every comparison against such a rational is stated in
//! cross-multiplied form, which is equivalent because all denominators
//! involved are positive.

use vstd::prelude::*;
use vstd::arithmetic::div_mod::lemma_fundamental_div_mod;
use vstd::arithmetic::div_mod::lemma_fundamental_div_mod_converse;

verus! {

/// A stream's time base: `num / den` seconds per presentation tick.
#[derive(Clone, Copy, Debug, PartialEq, Eq, Structural)]
pub struct TimeBase {
    pub num: i32,
    pub den: i32,
}

impl TimeBase {
    /// A usable time base: a positive denominator (so the rational is
    /// defined) and a non-negative numerator (so presentation time grows
    /// with the tick count).
    pub open spec fn wf(self) -> bool {
        self.den > 0 && self.num >= 0
    }
}

/// Ceiling of the rational `n / d`, for `d > 0`, written with the euclidean
/// integer division of the specification language.
pub open spec fn ceil_div(n: int, d: int) -> int {
    -((-n) / d)
}

/// The stop heuristic: playback has reached the declared end of the stream
/// when the frame's presentation time, rounded up to whole seconds, equals
/// the declared container duration rounded up to whole seconds. The frame's
/// presentation time in seconds is `pts * num / den`; the duration is given
/// in microseconds. This is an approximation inherited from the player's
/// design: it can stop playback up to about a second away from the true
/// last frame.
pub open spec fn end_of_stream_reached(duration_us: int, pts: int, tb: TimeBase) -> bool {
    ceil_div(duration_us, 1_000_000) == ceil_div(pts * tb.num, tb.den as int)
}

/// A frame is due for display once the wall clock (microseconds since the
/// clock origin) has reached the frame's presentation time:
/// `now_us / 1_000_000 >= pts * num / den`, cross-multiplied by the
/// positive factors `den` and `1_000_000`.
pub open spec fn frame_due(pts: int, tb: TimeBase, now_us: int) -> bool {
    now_us * tb.den >= pts * tb.num * 1_000_000
}

/// Presentation-time order of two ticks under one time base:
/// `a * num / den <= b * num / den`, cross-multiplied by the positive `den`.
pub open spec fn presentation_le(pts_a: int, pts_b: int, tb: TimeBase) -> bool {
    pts_a * tb.num <= pts_b * tb.num
}

/// Presentation time is non-decreasing in the tick count: frames handed
/// over in non-decreasing `pts` order have non-decreasing presentation
/// times.
pub proof fn lemma_presentation_monotonic(pts_a: int, pts_b: int, tb: TimeBase)
    by (nonlinear_arith)
    requires
        tb.wf(),
        pts_a <= pts_b,
    ensures
        presentation_le(pts_a, pts_b, tb),
{
}

/// A frame that presents no later than one already due is itself due: the
/// pacing check never holds back an earlier frame once a later one has
/// become due.
pub proof fn lemma_due_monotonic(pts_a: int, pts_b: int, tb: TimeBase, now_us: int)
    by (nonlinear_arith)
    requires
        tb.wf(),
        presentation_le(pts_a, pts_b, tb),
        frame_due(pts_b, tb, now_us),
    ensures
        frame_due(pts_a, tb, now_us),
{
}

/// Ceiling division on machine integers, matching `ceil_div`.
/// The magnitude bound keeps every intermediate value inside `u128`.
fn ceil_div_i128(n: i128, d: i128) -> (r: i128)
    requires
        0 < d <= 0x1_0000_0000,
        -0x1_0000_0000_0000_0000_0000_0000_0000 <= n <= 0x1_0000_0000_0000_0000_0000_0000_0000,
    ensures
        r == ceil_div(n as int, d as int),
{
    let du: u128 = d as u128;
    if n >= 0 {
        let nu: u128 = n as u128;
        let q: u128 = nu / du;
        let rem: u128 = nu % du;
        proof {
            lemma_fundamental_div_mod(nu as int, du as int);
            if rem == 0 {
                assert(-(nu as int) == (-(q as int)) * (du as int) + 0) by (nonlinear_arith)
                    requires
                        nu as int == (du as int) * (q as int) + (rem as int),
                        rem as int == 0,
                {}
                lemma_fundamental_div_mod_converse(-(nu as int), du as int, -(q as int), 0);
            } else {
                assert(-(nu as int) == (-(q as int) - 1) * (du as int) + ((du as int) - (rem as int)))
                    by (nonlinear_arith)
                    requires
                        nu as int == (du as int) * (q as int) + (rem as int),
                {}
                lemma_fundamental_div_mod_converse(
                    -(nu as int),
                    du as int,
                    -(q as int) - 1,
                    (du as int) - (rem as int),
                );
            }
        }
        if rem == 0 {
            q as i128
        } else {
            (q as i128) + 1
        }
    } else {
        let mu: u128 = (-n) as u128;
        let q: u128 = mu / du;
        proof {
            lemma_fundamental_div_mod(mu as int, du as int);
        }
        -(q as i128)
    }
}

/// Whether the stop heuristic fires for this frame: the ceiling of the
/// declared duration in whole seconds equals the ceiling of the frame's
/// presentation time in whole seconds.
pub fn end_of_stream(duration_us: i64, pts: i64, tb: &TimeBase) -> (r: bool)
    requires
        tb.wf(),
    ensures
        r == end_of_stream_reached(duration_us as int, pts as int, *tb),
{
    let dur_ceil: i128 = ceil_div_i128(duration_us as i128, 1_000_000);
    proof {
        assert((pts as i128) * (tb.num as i128) == (pts as int) * (tb.num as int)
            && -0x1_0000_0000_0000_0000_0000_0000_0000 <= (pts as int) * (tb.num as int)
                <= 0x1_0000_0000_0000_0000_0000_0000) by (nonlinear_arith)
            requires
                -0x8000_0000_0000_0000 <= pts as int <= 0x7fff_ffff_ffff_ffff,
                0 <= tb.num as int <= 0x7fff_ffff,
        {}
    }
    let ticks: i128 = (pts as i128) * (tb.num as i128);
    let pts_ceil: i128 = ceil_div_i128(ticks, tb.den as i128);
    dur_ceil == pts_ceil
}

/// Whether the frame with timestamp `pts` is due for display at wall-clock
/// time `now_us` (microseconds since the playback origin). The caller must
/// not display the frame before this returns true.
pub fn frame_is_due(pts: i64, tb: &TimeBase, now_us: i64) -> (r: bool)
    requires
        tb.wf(),
    ensures
        r == frame_due(pts as int, *tb, now_us as int),
{
    proof {
        assert((now_us as i128) * (tb.den as i128) == (now_us as int) * (tb.den as int)
            && (pts as i128) * (tb.num as i128) * 1_000_000
                == (pts as int) * (tb.num as int) * 1_000_000
            && -0x8000_0000_0000_0000_0000_0000_0000_0000
                <= (now_us as int) * (tb.den as int)
                < 0x8000_0000_0000_0000_0000_0000_0000_0000
            && -0x8000_0000_0000_0000_0000_0000_0000_0000
                <= (pts as int) * (tb.num as int) * 1_000_000
                < 0x8000_0000_0000_0000_0000_0000_0000_0000) by (nonlinear_arith)
            requires
                -0x8000_0000_0000_0000 <= pts as int <= 0x7fff_ffff_ffff_ffff,
                -0x8000_0000_0000_0000 <= now_us as int <= 0x7fff_ffff_ffff_ffff,
                0 <= tb.num as int <= 0x7fff_ffff,
                0 < tb.den as int <= 0x7fff_ffff,
        {}
    }
    let lhs: i128 = (now_us as i128) * (tb.den as i128);
    let rhs: i128 = (pts as i128) * (tb.num as i128) * 1_000_000;
    lhs >= rhs
}

} // verus!

