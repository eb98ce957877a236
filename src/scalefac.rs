use crate::bits::{bits_value, get_bits_inc};
use crate::side_info::GranuleInfo;
use vstd::prelude::*;

verus! {

/// The scalefactors of one granule of one channel.
#[derive(Debug, Clone, Copy)]
pub struct Scalefactors {
    /// Long-block bands; band 21 is always 0.
    pub long: [u32; 22],
    /// Short-block bands by window; band 12 is always 0.
    pub short: [[u32; 13]; 3],
}

/// The `n` bits at `p` as a number.
pub open spec fn sf(b: Seq<u8>, p: int, n: u32) -> u32 {
    bits_value(b, p, p + n) as u32
}

pub open spec fn is_short_block(g: GranuleInfo) -> bool {
    g.window_switching && g.block_type == 2
}

/// First band of each of the four scalefactor-sharing groups, and the end.
pub open spec fn group_start(k: int) -> int {
    if k <= 0 { 0 } else if k == 1 { 6 } else if k == 2 { 11 } else if k == 3 { 16 } else { 21 }
}

pub open spec fn group_of(b: int) -> int {
    if b < 6 { 0 } else if b < 11 { 1 } else if b < 16 { 2 } else { 3 }
}

pub open spec fn group_slen(g: GranuleInfo, k: int) -> int {
    if k < 2 { g.slen1 as int } else { g.slen2 as int }
}

/// Bits that group `k` takes: none when it is shared from granule 0.
pub open spec fn group_bits(g: GranuleInfo, share: [bool; 4], k: int) -> int {
    if share[k] { 0 } else { (group_start(k + 1) - group_start(k)) * group_slen(g, k) }
}

pub open spec fn bits_before(g: GranuleInfo, share: [bool; 4], k: int) -> int
    decreases k,
{
    if k <= 0 { 0 } else { bits_before(g, share, k - 1) + group_bits(g, share, k - 1) }
}

/// Where short band `b`, window `w` is read, counted from the first scalefactor bit.
pub open spec fn short_pos(g: GranuleInfo, b: int, w: int) -> int {
    let s1 = g.slen1 as int;
    let s2 = g.slen2 as int;
    if g.mixed_block_flag {
        if b < 6 { 8 * s1 + (3 * (b - 3) + w) * s1 } else { 17 * s1 + (3 * (b - 6) + w) * s2 }
    } else {
        if b < 6 { (3 * b + w) * s1 } else { 18 * s1 + (3 * (b - 6) + w) * s2 }
    }
}

/// Bits that the scalefactors take.
pub open spec fn scalefac_bits(g: GranuleInfo, share: [bool; 4]) -> int {
    if is_short_block(g) {
        if g.mixed_block_flag {
            17 * g.slen1 + 18 * g.slen2
        } else {
            18 * g.slen1 + 18 * g.slen2
        }
    } else {
        bits_before(g, share, 4)
    }
}

pub proof fn lemma_scalefac_bits_bound(g: GranuleInfo, share: [bool; 4])
    requires
        g.slen1 <= 4,
        g.slen2 <= 3,
    ensures
        0 <= scalefac_bits(g, share) <= 126,
{
    reveal_with_fuel(bits_before, 5);
    assert(group_start(1) - group_start(0) == 6);
    assert(group_start(2) - group_start(1) == 5);
    assert(group_start(3) - group_start(2) == 5);
    assert(group_start(4) - group_start(3) == 5);
    assert(group_bits(g, share, 0) == if share[0] { 0 } else { 6 * g.slen1 });
    assert(group_bits(g, share, 1) == if share[1] { 0 } else { 5 * g.slen1 });
    assert(group_bits(g, share, 2) == if share[2] { 0 } else { 5 * g.slen2 });
    assert(group_bits(g, share, 3) == if share[3] { 0 } else { 5 * g.slen2 });
    assert(bits_before(g, share, 4) == group_bits(g, share, 0) + group_bits(g, share, 1) + group_bits(
        g,
        share,
        2,
    ) + group_bits(g, share, 3));
}

fn read_long_group(
    buf: &[u8],
    bit: &mut usize,
    long: &mut [u32; 22],
    from: usize,
    to: usize,
    slen: u32,
    share: bool,
    prev: &[u32; 22],
)
    requires
        from <= to <= 21,
        slen <= 4,
        *old(bit) + 100 <= usize::MAX,
    ensures
        forall|b: int|
            from <= b < to ==> final(long)[b] == if share {
                prev[b]
            } else {
                sf(buf@, *old(bit) + (b - from) * slen, slen)
            },
        forall|b: int| 0 <= b < 22 && !(from <= b < to) ==> final(long)[b] == old(long)[b],
        *final(bit) == *old(bit) + if share { 0 } else { (to - from) * slen },
{
    let ghost start = *bit;
    let mut b = from;
    while b < to
        invariant
            from <= b <= to <= 21,
            slen <= 4,
            start + 100 <= usize::MAX,
            *bit == start + if share { 0 } else { (b - from) * slen },
            forall|c: int|
                from <= c < b ==> long[c] == if share {
                    prev[c]
                } else {
                    sf(buf@, start + (c - from) * slen, slen)
                },
            forall|c: int| 0 <= c < 22 && !(from <= c < b) ==> long[c] == old(long)[c],
        decreases to - b,
    {
        proof {
            assert((b - from) * slen <= 84) by (nonlinear_arith)
                requires
                    b - from <= 21,
                    slen <= 4,
            ;
            assert((b + 1 - from) * slen == (b - from) * slen + slen) by (nonlinear_arith);
        }
        if share {
            long[b] = prev[b];
        } else {
            long[b] = get_bits_inc(buf, bit, slen as usize);
        }
        b = b + 1;
    }
}

fn read_short_bands(
    buf: &[u8],
    bit: &mut usize,
    short: &mut [[u32; 13]; 3],
    from: usize,
    to: usize,
    slen: u32,
)
    requires
        from <= to <= 12,
        slen <= 4,
        *old(bit) + 200 <= usize::MAX,
    ensures
        forall|b: int, w: int|
            from <= b < to && 0 <= w < 3 ==> final(short)[w][b] == sf(
                buf@,
                *old(bit) + (3 * (b - from) + w) * slen,
                slen,
            ),
        forall|b: int, w: int|
            0 <= b < 13 && 0 <= w < 3 && !(from <= b < to) ==> final(short)[w][b] == old(short)[w][b],
        *final(bit) == *old(bit) + 3 * (to - from) * slen,
{
    let ghost start = *bit;
    let mut b = from;
    assert(3 * (b - from) * slen == 0) by (nonlinear_arith)
        requires
            b == from,
    ;
    while b < to
        invariant
            from <= b <= to <= 12,
            slen <= 4,
            start + 200 <= usize::MAX,
            *bit == start + 3 * (b - from) * slen,
            forall|c: int, w: int|
                from <= c < b && 0 <= w < 3 ==> short[w][c] == sf(
                    buf@,
                    start + (3 * (c - from) + w) * slen,
                    slen,
                ),
            forall|c: int, w: int|
                0 <= c < 13 && 0 <= w < 3 && !(from <= c < b) ==> short[w][c] == old(short)[w][c],
        decreases to - b,
    {
        let mut w: usize = 0;
        while w < 3
            invariant
                from <= b < to <= 12,
                slen <= 4,
                w <= 3,
                start + 200 <= usize::MAX,
                *bit == start + (3 * (b - from) + w) * slen,
                forall|c: int, v: int|
                    from <= c < b && 0 <= v < 3 ==> short[v][c] == sf(
                        buf@,
                        start + (3 * (c - from) + v) * slen,
                        slen,
                    ),
                forall|v: int|
                    0 <= v < w ==> short[v][b as int] == sf(
                        buf@,
                        start + (3 * (b - from) + v) * slen,
                        slen,
                    ),
                forall|c: int, v: int|
                    0 <= c < 13 && 0 <= v < 3 && !(from <= c < b) && !(c == b && v < w) ==> short[v][c]
                        == old(short)[v][c],
            decreases 3 - w,
        {
            proof {
                assert((3 * (b - from) + w) * slen <= 144) by (nonlinear_arith)
                    requires
                        b - from <= 11,
                        w <= 2,
                        slen <= 4,
                ;
                assert((3 * (b - from) + w + 1) * slen == (3 * (b - from) + w) * slen + slen)
                    by (nonlinear_arith);
            }
            let v = get_bits_inc(buf, bit, slen as usize);
            let mut row = short[w];
            row[b] = v;
            short[w] = row;
            w = w + 1;
        }
        proof {
            assert(3 * (b + 1 - from) * slen == (3 * (b - from) + 3) * slen) by (nonlinear_arith);
        }
        b = b + 1;
    }
}

/// `r` holds the scalefactors of granule `g` read from bit `bit` of `main`:
/// short blocks read their windows band by band, long blocks their four
/// band groups, where granule 1 takes over from `prev` (granule 0's long
/// scalefactors) each group that `share` marks. Band 21 (long) and band 12
/// (short) are zero.
pub open spec fn scalefac_read(
    main: Seq<u8>,
    bit: int,
    g: GranuleInfo,
    share: [bool; 4],
    gr: int,
    prev: [u32; 22],
    r: Scalefactors,
) -> bool {
    &&& r.long[21] == 0
    &&& forall|w: int| 0 <= w < 3 ==> #[trigger] r.short[w][12] == 0
    &&& {
            let eff = if gr == 0 || is_short_block(g) { [false, false, false, false] } else { share };
            &&& is_short_block(g) ==> {
                &&& forall|b: int| 0 <= b < 21 ==> #[trigger] r.long[b] == if g.mixed_block_flag && b < 8 {
                    sf(main, bit + b * g.slen1, g.slen1)
                } else {
                    0
                }
                &&& forall|b: int, w: int|
                    0 <= b < 12 && 0 <= w < 3 ==> #[trigger] r.short[w][b] == if g.mixed_block_flag && b < 3 {
                        0
                    } else {
                        sf(
                            main,
                            bit + short_pos(g, b, w),
                            if b < 6 { g.slen1 } else { g.slen2 },
                        )
                    }
            }
            &&& !is_short_block(g) ==> {
                &&& forall|b: int| 0 <= b < 21 ==> #[trigger] r.long[b] == if eff[group_of(b)] {
                    prev[b]
                } else {
                    sf(
                        main,
                        bit + bits_before(g, eff, group_of(b)) + (b - group_start(group_of(b)))
                            * group_slen(g, group_of(b)),
                        group_slen(g, group_of(b)) as u32,
                    )
                }
                &&& forall|b: int, w: int| 0 <= b < 13 && 0 <= w < 3 ==> #[trigger] r.short[w][b] == 0
            }
        }
}

/// Granule 0 shares nothing, so what it reads does not depend on `prev`.
pub proof fn lemma_granule0_ignores_prev(
    main: Seq<u8>,
    bit: int,
    g: GranuleInfo,
    share: [bool; 4],
    prev1: [u32; 22],
    prev2: [u32; 22],
    r: Scalefactors,
)
    requires
        scalefac_read(main, bit, g, share, 0, prev1, r),
    ensures
        scalefac_read(main, bit, g, share, 0, prev2, r),
{
    let eff = [false, false, false, false];
    assert(!eff[0] && !eff[1] && !eff[2] && !eff[3]);
    if !is_short_block(g) {
        assert forall|b: int| 0 <= b < 21 implies r.long[b] == if eff[group_of(b)] {
            prev2[b]
        } else {
            sf(
                main,
                bit + bits_before(g, eff, group_of(b)) + (b - group_start(group_of(b))) * group_slen(
                    g,
                    group_of(b),
                ),
                group_slen(g, group_of(b)) as u32,
            )
        } by {
            assert(0 <= group_of(b) < 4);
            assert(!eff[group_of(b)]);
        }
    } else {
        assert forall|b: int, w: int|
            0 <= b < 12 && 0 <= w < 3 implies #[trigger] r.short[w][b] == if g.mixed_block_flag && b < 3 {
                0
            } else {
                sf(main, bit + short_pos(g, b, w), if b < 6 { g.slen1 } else { g.slen2 })
            } by {}
    }
}

/// Reads the scalefactors of one granule of one channel at `*bit` of the main
/// data. `share` says which long-block band groups granule 1 takes over from
/// `prev`, the long scalefactors of granule 0; granule 0 shares none.
pub fn unpack_scalefac(
    main_data: &[u8],
    bit: &mut usize,
    g: &GranuleInfo,
    share: [bool; 4],
    gr: usize,
    prev: &[u32; 22],
) -> (r: Scalefactors)
    requires
        g.slen1 <= 4,
        g.slen2 <= 3,
        *old(bit) + 400 <= usize::MAX,
    ensures
        r.long[21] == 0,
        forall|w: int| 0 <= w < 3 ==> r.short[w][12] == 0,
        *final(bit) == *old(bit) + scalefac_bits(
            *g,
            if gr == 0 || is_short_block(*g) { [false, false, false, false] } else { share },
        ),
        scalefac_read(main_data@, *old(bit) as int, *g, share, gr as int, *prev, r),
{
    let mut long = [0u32; 22];
    let mut short = [[0u32; 13]; 3];
    let s1 = g.slen1;
    let s2 = g.slen2;
    let ghost base = *bit;
    if g.window_switching && g.block_type == 2 {
        if g.mixed_block_flag {
            read_long_group(main_data, bit, &mut long, 0, 8, s1, false, prev);
            assert(*bit == base + 8 * s1);
            read_short_bands(main_data, bit, &mut short, 3, 6, s1);
            assert(*bit == base + 17 * s1) by (nonlinear_arith)
                requires
                    *bit == base + 8 * s1 + 3 * (6 - 3) * s1,
            ;
            read_short_bands(main_data, bit, &mut short, 6, 12, s2);
            assert(*bit == base + 17 * s1 + 18 * s2) by (nonlinear_arith)
                requires
                    *bit == base + 17 * s1 + 3 * (12 - 6) * s2,
            ;
        } else {
            read_short_bands(main_data, bit, &mut short, 0, 6, s1);
            assert(*bit == base + 18 * s1) by (nonlinear_arith)
                requires
                    *bit == base + 3 * (6 - 0) * s1,
            ;
            read_short_bands(main_data, bit, &mut short, 6, 12, s2);
            assert(*bit == base + 18 * s1 + 18 * s2) by (nonlinear_arith)
                requires
                    *bit == base + 18 * s1 + 3 * (12 - 6) * s2,
            ;
        }
    } else {
        let eff = if gr == 0 { [false, false, false, false] } else { share };
        proof {
            reveal_with_fuel(bits_before, 5);
        }
        read_long_group(main_data, bit, &mut long, 0, 6, s1, eff[0], prev);
        assert(*bit == base + bits_before(*g, eff, 1));
        read_long_group(main_data, bit, &mut long, 6, 11, s1, eff[1], prev);
        assert(*bit == base + bits_before(*g, eff, 2));
        read_long_group(main_data, bit, &mut long, 11, 16, s2, eff[2], prev);
        assert(*bit == base + bits_before(*g, eff, 3));
        read_long_group(main_data, bit, &mut long, 16, 21, s2, eff[3], prev);
        assert(*bit == base + bits_before(*g, eff, 4));
    }
    Scalefactors { long, short }
}

} // verus!
