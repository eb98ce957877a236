use crate::scalefac::Scalefactors;
use crate::side_info::GranuleInfo;
use vstd::prelude::*;

verus! {

/// Where the requantizer stands before a line: the scalefactor band, the
/// short window, and lines taken in that window of the band.
pub struct WalkState {
    pub sfb: int,
    pub window: int,
    pub taken: int,
}

/// Lines of a granule whose exponents come from short-block scalefactors:
/// all of a short block, and the bands from 8 on of a mixed block.
pub open spec fn short_line(g: GranuleInfo, st: WalkState) -> bool {
    g.block_type == 2 || (g.mixed_block_flag && st.sfb >= 8)
}

/// Moves the walk to line `line`: a short band ends after its width in each
/// of the three windows in turn; a long band ends at the next boundary.
pub open spec fn walk_step(g: GranuleInfo, long_index: Seq<u32>, short_width: Seq<u32>, st: WalkState, line: int) -> WalkState {
    if short_line(g, st) {
        if st.taken == short_width[if st.sfb > 12 { 12 } else { st.sfb }] as int {
            if st.window == 2 {
                WalkState { sfb: if st.sfb + 1 > 12 { 12 } else { st.sfb + 1 }, window: 0, taken: 0 }
            } else {
                WalkState { sfb: st.sfb, window: st.window + 1, taken: 0 }
            }
        } else {
            st
        }
    } else if st.sfb < 21 && line == long_index[st.sfb + 1] as int {
        WalkState { sfb: st.sfb + 1, ..st }
    } else {
        st
    }
}

/// The walk's state after `k` lines.
pub open spec fn walk(g: GranuleInfo, long_index: Seq<u32>, short_width: Seq<u32>, k: int) -> WalkState
    decreases k,
{
    if k <= 0 {
        WalkState { sfb: 0, window: 0, taken: 0 }
    } else {
        let st = walk_step(g, long_index, short_width, walk(g, long_index, short_width, k - 1), k - 1);
        WalkState { taken: st.taken + 1, ..st }
    }
}

/// The exponents of line `k`: `gain` is A, so that the line scales by
/// 2^(A/4); `scale` is the scalefactor term, which scales it by 2^(-scale/2),
/// or by 2^(-scale) when `scalefac_scale` is set.
pub open spec fn exponents_at(
    g: GranuleInfo,
    sf: Scalefactors,
    long_index: Seq<u32>,
    short_width: Seq<u32>,
    pretab: Seq<u32>,
    k: int,
) -> (int, int) {
    let before = walk(g, long_index, short_width, k);
    let st = walk_step(g, long_index, short_width, before, k);
    if short_line(g, before) {
        let sfb = if st.sfb > 12 { 12 } else { st.sfb };
        (g.global_gain - 210 - 8 * g.subblock_gain[st.window], sf.short[st.window][sfb] as int)
    } else {
        (g.global_gain - 210, sf.long[st.sfb] + g.preflag * pretab[st.sfb])
    }
}

/// The requantization exponents of the 576 lines of a granule.
pub fn line_exponents(
    g: &GranuleInfo,
    sf: &Scalefactors,
    long_index: &Vec<u32>,
    short_width: &Vec<u32>,
    pretab: &Vec<u32>,
) -> (r: Vec<(i64, u64)>)
    requires
        long_index@.len() == 23,
        short_width@.len() == 13,
        pretab@.len() == 22,
    ensures
        r@.len() == 576,
        forall|k: int|
            0 <= k < 576 ==> (#[trigger] r@[k]).0 as int == exponents_at(
                *g,
                *sf,
                long_index@,
                short_width@,
                pretab@,
                k,
            ).0 && r@[k].1 as int == exponents_at(*g, *sf, long_index@, short_width@, pretab@, k).1,
{
    let mut out: Vec<(i64, u64)> = Vec::new();
    let mut sfb: usize = 0;
    let mut window: usize = 0;
    let mut taken: u64 = 0;
    let mut k: usize = 0;
    while k < 576
        invariant
            k <= 576,
            long_index@.len() == 23,
            short_width@.len() == 13,
            pretab@.len() == 22,
            out@.len() == k,
            sfb <= 21,
            window <= 2,
            taken <= k,
            walk(*g, long_index@, short_width@, k as int) == (WalkState {
                sfb: sfb as int,
                window: window as int,
                taken: taken as int,
            }),
            forall|j: int|
                0 <= j < k ==> (#[trigger] out@[j]).0 as int == exponents_at(
                    *g,
                    *sf,
                    long_index@,
                    short_width@,
                    pretab@,
                    j,
                ).0 && out@[j].1 as int == exponents_at(*g, *sf, long_index@, short_width@, pretab@, j).1,
        decreases 576 - k,
    {
        let short = g.block_type == 2 || (g.mixed_block_flag && sfb >= 8);
        let e: (i64, u64);
        if short {
            let sw = if sfb > 12 { 12 } else { sfb };
            if taken == short_width[sw] as u64 {
                taken = 0;
                if window == 2 {
                    window = 0;
                    sfb = if sfb + 1 > 12 { 12 } else { sfb + 1 };
                } else {
                    window = window + 1;
                }
            }
            let s = if sfb > 12 { 12 } else { sfb };
            e = (
                g.global_gain as i64 - 210 - 8 * g.subblock_gain[window] as i64,
                sf.short[window][s] as u64,
            );
        } else {
            if sfb < 21 && k == long_index[sfb + 1] as usize {
                sfb = sfb + 1;
            }
            let l = sf.long[sfb] as u64;
            let p = g.preflag as u64;
            let t = pretab[sfb] as u64;
            assert(l + p * t <= u64::MAX) by (nonlinear_arith)
                requires
                    l <= u32::MAX,
                    p <= u32::MAX,
                    t <= u32::MAX,
            ;
            e = (g.global_gain as i64 - 210, l + p * t);
        }
        out.push(e);
        taken = taken + 1;
        k = k + 1;
    }
    out
}

} // verus!
