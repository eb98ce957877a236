use crate::header::{header_result, parse_header, ChannelMode, FrameHeader};
use vstd::prelude::*;

verus! {

/// The band of a short-block boundary table `index` that holds line `c` of a
/// window, looking no further than band 11.
pub open spec fn band_from(index: Seq<u32>, c: int, sb: int) -> int
    decreases 11 - sb,
{
    if sb >= 11 || c < index[sb + 1] {
        sb
    } else {
        band_from(index, c, sb + 1)
    }
}

/// The window line that output line `i` of the reordering takes: six lines
/// of each window in turn, eighteen to a subband.
pub open spec fn reorder_line(i: int) -> int {
    6 * (i / 18) + (i % 18) % 6
}

/// The window that output line `i` of the reordering takes.
pub open spec fn reorder_window(i: int) -> int {
    (i % 18) / 6
}

/// Where output line `i` of the reordering comes from: short-block lines are
/// stored band by band, each band window by window.
pub open spec fn reorder_src(index: Seq<u32>, i: int) -> int {
    let c = reorder_line(i);
    let sb = band_from(index, c, 0);
    let w = index[sb + 1] - index[sb];
    3 * index[sb] + (c - index[sb]) + reorder_window(i) * w
}

/// A short-block boundary table: increasing from 0, band 12 ending by line 192.
pub open spec fn short_index_ok(index: Seq<u32>) -> bool {
    &&& index.len() >= 13
    &&& index[0] == 0
    &&& index[12] <= 192
    &&& forall|k: int| 0 <= k < 12 ==> #[trigger] index[k] <= index[k + 1]
}

proof fn lemma_band_from(index: Seq<u32>, c: int, sb: int)
    requires
        short_index_ok(index),
        0 <= sb <= 11,
        index[sb] <= c < index[12],
    ensures
        sb <= band_from(index, c, sb) <= 11,
        index[band_from(index, c, sb)] <= c < index[band_from(index, c, sb) + 1],
    decreases 11 - sb,
{
    if sb < 11 && c >= index[sb + 1] {
        lemma_band_from(index, c, sb + 1);
    }
}

/// Puts the lines of a short-block granule in time order. Lines past the
/// twelve reordered bands come out as `zero`.
pub fn reorder<T: Copy>(samples: &Vec<T>, index: &Vec<u32>, zero: T) -> (r: Vec<T>)
    requires
        samples@.len() == 576,
        short_index_ok(index@),
    ensures
        r@.len() == 576,
        forall|i: int|
            0 <= i < 576 ==> #[trigger] r@[i] == if reorder_line(i) < index@[12] {
                samples@[reorder_src(index@, i)]
            } else {
                zero
            },
{
    let mut out: Vec<T> = Vec::new();
    let end = index[12] as usize;
    let mut i: usize = 0;
    while i < 576
        invariant
            i <= 576,
            out@.len() == i,
            samples@.len() == 576,
            short_index_ok(index@),
            end == index@[12],
            forall|k: int|
                0 <= k < i ==> #[trigger] out@[k] == if reorder_line(k) < index@[12] {
                    samples@[reorder_src(index@, k)]
                } else {
                    zero
                },
        decreases 576 - i,
    {
        let c = 6 * (i / 18) + (i % 18) % 6;
        let win = (i % 18) / 6;
        if c < end {
            let mut sb: usize = 0;
            while sb < 11 && c >= index[sb + 1] as usize
                invariant
                    sb <= 11,
                    short_index_ok(index@),
                    index@[sb as int] <= c < index@[12],
                    band_from(index@, c as int, sb as int) == band_from(index@, c as int, 0),
                decreases 11 - sb,
            {
                sb = sb + 1;
            }
            proof {
                lemma_band_from(index@, c as int, 0);
            }
            let lo = index[sb] as usize;
            let w = index[sb + 1] as usize - lo;
            proof {
                assert(3 * lo + (c - lo) + win * w < 3 * (lo + w)) by (nonlinear_arith)
                    requires
                        lo <= c < lo + w,
                        win <= 2,
                ;
                assert(lo + w <= 192) by {
                    if sb + 1 < 12 {
                        assert(index@[sb + 1] <= index@[12]) by {
                            lemma_sorted_prefix(index@, sb + 1);
                        }
                    }
                }
                assert(win * w <= 2 * 192) by (nonlinear_arith)
                    requires
                        win <= 2,
                        w <= 192,
                ;
            }
            out.push(samples[3 * lo + (c - lo) + win * w]);
        } else {
            out.push(zero);
        }
        i = i + 1;
    }
    out
}

proof fn lemma_sorted_prefix(index: Seq<u32>, k: int)
    requires
        short_index_ok(index),
        0 <= k <= 12,
    ensures
        index[k] <= index[12],
    decreases 12 - k,
{
    if k < 12 {
        lemma_sorted_prefix(index, k + 1);
        assert(index[k] <= index[k + 1]);
    }
}

/// Line `i` of a granule is one that frequency inversion negates: an odd
/// line of an odd subband.
pub open spec fn inverted(i: int) -> bool {
    0 <= i < 576 && (i / 18) % 2 == 1 && (i % 18) % 2 == 1
}

/// Whether frequency inversion negates line `i` of a granule.
pub fn is_inverted(i: usize) -> (r: bool)
    ensures
        r == inverted(i as int),
{
    i < 576 && (i / 18) % 2 == 1 && (i % 18) % 2 == 1
}

/// MS stereo runs on joint-stereo frames whose mode extension sets its bit.
pub fn uses_ms_stereo(h: &FrameHeader) -> (r: bool)
    ensures
        r == (h.channel_mode == ChannelMode::JointStereo && h.ms_stereo),
{
    h.channel_mode == ChannelMode::JointStereo && h.ms_stereo
}

/// Samples of PCM that a frame of `channels` channels gives: 576 per granule
/// and channel.
pub open spec fn pcm_len(channels: int) -> int {
    576 * 2 * channels
}

/// Interleaves the 576 output samples of each granule and channel, granule
/// by granule, sample by sample, channel by channel; `samples` holds them
/// at `2 * granule + channel`.
pub fn interleave<T: Copy>(samples: &Vec<Vec<T>>, channels: usize) -> (r: Vec<T>)
    requires
        channels == 1 || channels == 2,
        samples@.len() == 4,
        forall|k: int| 0 <= k < 4 ==> (#[trigger] samples@[k])@.len() == 576,
    ensures
        r@.len() == pcm_len(channels as int),
        forall|gr: int, s: int, ch: int|
            0 <= gr < 2 && 0 <= s < 576 && 0 <= ch < channels ==> r@[(gr * 576 + s) * channels + ch]
                == #[trigger] samples@[2 * gr + ch]@[s],
{
    let mut out: Vec<T> = Vec::new();
    let mut gr: usize = 0;
    while gr < 2
        invariant
            gr <= 2,
            channels == 1 || channels == 2,
            samples@.len() == 4,
            forall|k: int| 0 <= k < 4 ==> (#[trigger] samples@[k])@.len() == 576,
            out@.len() == gr * 576 * channels,
            forall|g: int, s: int, ch: int|
                0 <= g < gr && 0 <= s < 576 && 0 <= ch < channels ==> out@[(g * 576 + s) * channels + ch]
                    == #[trigger] samples@[2 * g + ch]@[s],
        decreases 2 - gr,
    {
        let mut s: usize = 0;
        while s < 576
            invariant
                gr < 2,
                s <= 576,
                channels == 1 || channels == 2,
                samples@.len() == 4,
                forall|k: int| 0 <= k < 4 ==> (#[trigger] samples@[k])@.len() == 576,
                out@.len() == (gr * 576 + s) * channels,
                forall|g: int, t: int, ch: int|
                    0 <= g < 2 && 0 <= t < 576 && 0 <= ch < channels && (g < gr || (g == gr && t < s))
                        ==> out@[(g * 576 + t) * channels + ch] == #[trigger] samples@[2 * g + ch]@[t],
            decreases 576 - s,
        {
            let mut ch: usize = 0;
            let ghost before = out@;
            while ch < channels
                invariant
                    gr < 2,
                    s < 576,
                    ch <= channels,
                    channels == 1 || channels == 2,
                    samples@.len() == 4,
                    forall|k: int| 0 <= k < 4 ==> (#[trigger] samples@[k])@.len() == 576,
                    before.len() == (gr * 576 + s) * channels,
                    out@.len() == before.len() + ch,
                    forall|k: int| 0 <= k < before.len() ==> out@[k] == before[k],
                    forall|c: int| 0 <= c < ch ==> out@[before.len() + c] == #[trigger] samples@[2 * gr + c]@[s as int],
                decreases channels - ch,
            {
                out.push(samples[2 * gr + ch][s]);
                ch = ch + 1;
            }
            proof {
                assert((gr * 576 + s + 1) * channels == (gr * 576 + s) * channels + channels) by (nonlinear_arith);
                assert forall|g: int, t: int, c: int|
                    0 <= g < 2 && 0 <= t < 576 && 0 <= c < channels && (g < gr || (g == gr && t < s + 1))
                        implies out@[(g * 576 + t) * channels + c] == #[trigger] samples@[2 * g + c]@[t] by {
                    if g == gr && t == s {
                    } else {
                        assert((g * 576 + t) * channels + c < (gr * 576 + s) * channels) by (nonlinear_arith)
                            requires
                                g < gr || (g == gr && t < s),
                                0 <= c < channels,
                                0 <= t < 576,
                                0 <= g,
                        ;
                    }
                }
            }
            s = s + 1;
        }
        proof {
            assert((gr * 576 + 576) * channels == (gr + 1) * 576 * channels) by (nonlinear_arith);
        }
        gr = gr + 1;
    }
    out
}

/// The first place at or after `from` where a valid Layer III header starts.
pub fn find_sync(buf: &[u8], from: usize) -> (r: Option<usize>)
    ensures
        r matches Some(p) ==> from <= p < buf@.len() && header_result(buf@.skip(p as int)) is Ok
            && forall|q: int| from <= q < p ==> !(header_result(#[trigger] buf@.skip(q)) is Ok),
        r is None ==> forall|q: int| from <= q < buf@.len() ==> !(header_result(#[trigger] buf@.skip(q)) is Ok),
        r matches Some(p) ==> find_first(buf@, from as int) == Some(p as int),
        r is None ==> find_first(buf@, from as int) is None,
{
    let mut p = from;
    while p < buf.len()
        invariant
            from <= p || p >= buf@.len(),
            forall|q: int| from <= q < p ==> !(header_result(#[trigger] buf@.skip(q)) is Ok),
        decreases buf@.len() - p,
    {
        let rest = &buf[p..buf.len()];
        proof {
            assert(rest@ =~= buf@.skip(p as int));
        }
        if parse_header(rest).is_ok() {
            proof {
                lemma_find_first(buf@, from as int, p as int);
            }
            return Some(p);
        }
        p = p + 1;
    }
    None
}

/// The first place at or after `from` where a valid Layer III header starts.
pub open spec fn find_first(s: Seq<u8>, from: int) -> Option<int> {
    if exists|q: int| from <= q < s.len() && header_result(#[trigger] s.skip(q)) is Ok {
        Some(choose|q: int| from <= q < s.len() && header_result(#[trigger] s.skip(q)) is Ok
            && forall|q2: int| from <= q2 < q ==> !(header_result(#[trigger] s.skip(q2)) is Ok))
    } else {
        None
    }
}

pub proof fn lemma_find_first(s: Seq<u8>, from: int, p: int)
    requires
        from <= p < s.len(),
        header_result(s.skip(p)) is Ok,
        forall|q: int| from <= q < p ==> !(header_result(#[trigger] s.skip(q)) is Ok),
    ensures
        find_first(s, from) == Some(p),
{
    let c = choose|q: int| from <= q < s.len() && header_result(#[trigger] s.skip(q)) is Ok
        && forall|q2: int| from <= q2 < q ==> !(header_result(#[trigger] s.skip(q2)) is Ok);
    assert(from <= p < s.len() && header_result(s.skip(p)) is Ok && forall|q2: int|
        from <= q2 < p ==> !(header_result(#[trigger] s.skip(q2)) is Ok));
    if c < p {
        assert(!(header_result(s.skip(c)) is Ok));
    } else if c > p {
        assert(!(header_result(s.skip(p)) is Ok));
    }
}

} // verus!
