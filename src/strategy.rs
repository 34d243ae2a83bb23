use vstd::prelude::*;
use vstd::arithmetic::div_mod::{lemma_div_is_ordered, lemma_div_is_ordered_by_denominator};

use crate::error::GifError;

verus! {

/// Frames are kept one in every `skip`; `delay` is the display time handed to
/// the compressor for each kept frame.
#[derive(Clone, Copy, Debug, PartialEq, Eq, Structural)]
pub struct Strategy {
    pub skip: usize,
    pub delay: u16,
}

/// Smallest number of frames a strategy may leave.
pub open spec fn min_frames(f: int, p: int) -> int {
    let q = f * p / 100;
    if q > 3 { q } else { 3 }
}

pub open spec fn ceil_div(a: int, b: int) -> int
    recommends b > 0,
{
    (a + b - 1) / b
}

/// Largest stride of the regular series: `ceil(f / min_frames)` clamped to `[2, 10]`.
pub open spec fn max_stride(f: int, p: int) -> int {
    let c = ceil_div(f, min_frames(f, p));
    if c < 2 { 2 } else if c > 10 { 10 } else { c }
}

pub open spec fn delay_for(f: int, s: int) -> int
    recommends f > 0,
{
    100 * s / f + 10
}

pub open spec fn strategy_of(f: int, s: int) -> Strategy {
    Strategy { skip: s as usize, delay: delay_for(f, s) as u16 }
}

/// Strides `2 ..= max_stride`, in ascending order.
pub open spec fn regular_strategies(f: int, p: int) -> Seq<Strategy> {
    Seq::new((max_stride(f, p) - 1) as nat, |i: int| strategy_of(f, i + 2))
}

/// An aggressive stride is tried only on inputs of more than 30 frames, and only
/// while it still keeps `min_frames` frames when counted by floor division.
pub open spec fn aggressive_allowed(f: int, p: int, s: int) -> bool {
    f > 30 && f / s >= min_frames(f, p)
}

pub open spec fn aggressive_strategies(f: int, p: int) -> Seq<Strategy> {
    let s1 = max_stride(f, p) + 5;
    let s2 = max_stride(f, p) + 10;
    let first = if aggressive_allowed(f, p, s1) { seq![strategy_of(f, s1)] } else { Seq::empty() };
    let second = if aggressive_allowed(f, p, s2) { seq![strategy_of(f, s2)] } else { Seq::empty() };
    first + second
}

/// The strategies tried on an input of `f` frames when at least `p` percent of
/// them must remain.
pub open spec fn strategies_for(f: int, p: int) -> Seq<Strategy> {
    regular_strategies(f, p) + aggressive_strategies(f, p)
}

proof fn lemma_delay_bounds(f: int, s: int)
    requires
        f >= 1,
        0 <= s <= 20,
    ensures
        10 <= delay_for(f, s) <= 2010,
{
    assert(0 <= 100 * s / f <= 100 * s) by (nonlinear_arith)
        requires f >= 1, 0 <= s;
}

fn delay_of(frame_count: usize, skip: usize) -> (r: u16)
    requires
        frame_count >= 1,
        skip <= 20,
    ensures
        r as int == delay_for(frame_count as int, skip as int),
{
    proof { lemma_delay_bounds(frame_count as int, skip as int); }
    let q: usize = (100 * skip) / frame_count;
    (q as u16) + 10
}

/// Lists the strategies for an input of `frame_count` frames, of which at least
/// `min_frame_percent` percent are to be kept. An input without frames is refused.
pub fn generate_strategies(frame_count: usize, min_frame_percent: u32) -> (r: Result<Vec<Strategy>, GifError>)
    ensures
        frame_count == 0 <==> r matches Err(GifError::NoFrames),
        r matches Ok(v) ==> v@ == strategies_for(frame_count as int, min_frame_percent as int),
        frame_count != 0 ==> r is Ok,
{
    if frame_count == 0 {
        return Err(GifError::NoFrames);
    }
    let f = frame_count as u128;
    assert(f * (min_frame_percent as u128) <= 0xffff_ffff_ffff_ffffu128 * 0xffff_ffffu128) by (nonlinear_arith)
        requires f <= 0xffff_ffff_ffff_ffffu128, min_frame_percent <= 0xffff_ffffu32;
    let q: u128 = f * (min_frame_percent as u128) / 100;
    let m: u128 = if q > 3 { q } else { 3 };
    let c: u128 = (f + m - 1) / m;
    let top: usize = if c < 2 { 2 } else if c > 10 { 10 } else { c as usize };
    assert(m as int == min_frames(frame_count as int, min_frame_percent as int));
    assert(top as int == max_stride(frame_count as int, min_frame_percent as int));

    let mut out: Vec<Strategy> = Vec::new();
    let mut skip: usize = 2;
    while skip <= top
        invariant
            2 <= skip <= top + 1,
            top <= 10,
            frame_count >= 1,
            out@ == Seq::new((skip - 2) as nat, |i: int| strategy_of(frame_count as int, i + 2)),
        decreases top + 1 - skip,
    {
        let d = delay_of(frame_count, skip);
        out.push(Strategy { skip, delay: d });
        assert(out@ =~= Seq::new((skip - 1) as nat, |i: int| strategy_of(frame_count as int, i + 2)));
        skip = skip + 1;
    }
    let ghost regular = out@;
    assert(regular =~= regular_strategies(frame_count as int, min_frame_percent as int));

    if frame_count > 30 {
        let s1: usize = top + 5;
        if ((frame_count / s1) as u128) >= m {
            let d = delay_of(frame_count, s1);
            out.push(Strategy { skip: s1, delay: d });
        }
        let ghost mid = out@;
        let s2: usize = top + 10;
        if ((frame_count / s2) as u128) >= m {
            let d = delay_of(frame_count, s2);
            out.push(Strategy { skip: s2, delay: d });
        }
        assert(out@ =~= strategies_for(frame_count as int, min_frame_percent as int));
    } else {
        assert(out@ =~= strategies_for(frame_count as int, min_frame_percent as int));
    }
    Ok(out)
}

/// Number of frames kept out of `f` when every `s`-th one is taken, starting
/// with the first.
pub open spec fn retained_frames(f: int, s: int) -> int
    recommends s > 0,
{
    ceil_div(f, s)
}

proof fn lemma_retained_antitone(f: int, s: int, t: int)
    requires
        f >= 1,
        1 <= s <= t,
    ensures
        retained_frames(f, t) <= retained_frames(f, s),
{
    assert((f + s - 1) / s == (f - 1) / s + 1) by {
        vstd::arithmetic::div_mod::lemma_fundamental_div_mod(f - 1, s);
        vstd::arithmetic::div_mod::lemma_fundamental_div_mod(f + s - 1, s);
        vstd::arithmetic::div_mod::lemma_div_plus_one(f - 1, s);
    }
    assert((f + t - 1) / t == (f - 1) / t + 1) by {
        vstd::arithmetic::div_mod::lemma_div_plus_one(f - 1, t);
    }
    lemma_div_is_ordered_by_denominator(f - 1, s, t);
}

/// No strategy keeps fewer than `max(1, min_frames)` frames of an input of at
/// least two frames, provided the largest regular stride keeps that many. The
/// condition is exactly what is needed: the largest regular stride is itself
/// one of the strategies, every smaller stride keeps at least as many frames,
/// and an aggressive stride is only emitted when floor division already
/// leaves `min_frames`.
pub proof fn lemma_strategies_keep_min_frames(f: int, p: int)
    requires
        f >= 2,
        p >= 0,
        retained_frames(f, max_stride(f, p)) >= min_frames(f, p),
    ensures
        forall|i: int|
            0 <= i < strategies_for(f, p).len() ==> retained_frames(
                f,
                #[trigger] strategies_for(f, p)[i].skip as int,
            ) >= vstd::math::max(1, min_frames(f, p)),
{
    let all = strategies_for(f, p);
    let reg = regular_strategies(f, p);
    let agg = aggressive_strategies(f, p);
    let m = min_frames(f, p);
    let top = max_stride(f, p);
    assert forall|i: int| 0 <= i < all.len() implies retained_frames(f, #[trigger] all[i].skip as int)
        >= vstd::math::max(1, m) by {
        if i < reg.len() {
            assert(all[i] == reg[i]);
            assert(all[i].skip as int == i + 2);
            lemma_retained_antitone(f, i + 2, top);
        } else {
            let s = all[i].skip as int;
            assert(all[i] == agg[i - reg.len()]);
            assert(s == top + 5 || s == top + 10);
            assert(f / s >= m);
            lemma_div_is_ordered(f, f + s - 1, s);
        }
    }
}

} // verus!
