use crate::bits::{bits_value, get_bits_inc};
use crate::header::DecodeError;
use vstd::prelude::*;

verus! {

/// The control fields of one granule of one channel.
#[derive(Debug, Clone, Copy)]
pub struct GranuleInfo {
    /// Bits of scalefactors and Huffman data.
    pub part2_3_length: u32,
    /// Pairs of big values.
    pub big_value: u32,
    pub global_gain: u32,
    pub scalefac_compress: u32,
    pub slen1: u32,
    pub slen2: u32,
    pub window_switching: bool,
    pub block_type: u32,
    pub mixed_block_flag: bool,
    pub switch_point_l: u32,
    pub switch_point_s: u32,
    pub table_select: [u32; 3],
    pub subblock_gain: [u32; 3],
    pub region0_count: u32,
    pub region1_count: u32,
    pub preflag: u32,
    pub scalefac_scale: u32,
    pub count1table_select: u32,
}

/// The side information of a frame; a mono frame leaves channel 1 blank.
#[derive(Debug, Clone, Copy)]
pub struct SideInfo {
    pub main_data_begin: u32,
    pub scfsi: [[bool; 4]; 2],
    /// Indexed by granule, then channel.
    pub granules: [[GranuleInfo; 2]; 2],
}

/// Bits of `slen1` for each `scalefac_compress`.
pub open spec fn slen1_of(c: u32) -> u32 {
    seq![0u32, 0, 0, 0, 3, 1, 1, 1, 2, 2, 2, 3, 3, 3, 4, 4][c as int]
}

/// Bits of `slen2` for each `scalefac_compress`.
pub open spec fn slen2_of(c: u32) -> u32 {
    seq![0u32, 1, 2, 3, 0, 1, 2, 3, 1, 2, 3, 1, 2, 3, 2, 3][c as int]
}

/// The `n` bits at `p` as a number.
pub open spec fn field(b: Seq<u8>, p: int, n: int) -> u32 {
    bits_value(b, p, p + n) as u32
}

pub open spec fn blank_granule() -> GranuleInfo {
    GranuleInfo {
        part2_3_length: 0,
        big_value: 0,
        global_gain: 0,
        scalefac_compress: 0,
        slen1: 0,
        slen2: 0,
        window_switching: false,
        block_type: 0,
        mixed_block_flag: false,
        switch_point_l: 0,
        switch_point_s: 0,
        table_select: [0, 0, 0],
        subblock_gain: [0, 0, 0],
        region0_count: 0,
        region1_count: 0,
        preflag: 0,
        scalefac_scale: 0,
        count1table_select: 0,
    }
}

/// The fields of one granule of one channel, whose 59 bits start at `p`.
pub open spec fn granule_at(b: Seq<u8>, p: int) -> GranuleInfo {
    let ws = field(b, p + 33, 1) == 1;
    let compress = field(b, p + 29, 4);
    let block_type = if ws { field(b, p + 34, 2) } else { 0 };
    let mixed = ws && field(b, p + 36, 1) == 1;
    let region0: u32 = if ws { if block_type == 2 { 8 } else { 7 } } else { field(b, p + 49, 4) };
    GranuleInfo {
        part2_3_length: field(b, p, 12),
        big_value: field(b, p + 12, 9),
        global_gain: field(b, p + 21, 8),
        scalefac_compress: compress,
        slen1: slen1_of(compress),
        slen2: slen2_of(compress),
        window_switching: ws,
        block_type,
        mixed_block_flag: mixed,
        switch_point_l: if mixed { 8 } else { 0 },
        switch_point_s: if mixed { 3 } else { 0 },
        table_select: if ws {
            [field(b, p + 37, 5), field(b, p + 42, 5), 0]
        } else {
            [field(b, p + 34, 5), field(b, p + 39, 5), field(b, p + 44, 5)]
        },
        subblock_gain: if ws {
            [field(b, p + 47, 3), field(b, p + 50, 3), field(b, p + 53, 3)]
        } else {
            [0, 0, 0]
        },
        region0_count: region0,
        region1_count: if ws { (20 - region0) as u32 } else { field(b, p + 53, 3) },
        preflag: field(b, p + 56, 1),
        scalefac_scale: field(b, p + 57, 1),
        count1table_select: field(b, p + 58, 1),
    }
}

/// The ranges that the widths of the fields give.
pub open spec fn granule_bounded(g: GranuleInfo) -> bool {
    &&& g.part2_3_length < 4096
    &&& g.big_value < 512
    &&& g.slen1 <= 4
    &&& g.slen2 <= 3
    &&& g.table_select[0] < 32 && g.table_select[1] < 32 && g.table_select[2] < 32
    &&& g.count1table_select < 2
}

pub proof fn lemma_granule_bounded(b: Seq<u8>, p: int)
    ensures
        granule_bounded(granule_at(b, p)),
{
    vstd::arithmetic::power2::lemma2_to64();
    crate::bits::lemma_bits_value_bound(b, p, p + 12);
    crate::bits::lemma_bits_value_bound(b, p + 12, p + 12 + 9);
    crate::bits::lemma_bits_value_bound(b, p + 29, p + 29 + 4);
    crate::bits::lemma_bits_value_bound(b, p + 34, p + 34 + 5);
    crate::bits::lemma_bits_value_bound(b, p + 37, p + 37 + 5);
    crate::bits::lemma_bits_value_bound(b, p + 39, p + 39 + 5);
    crate::bits::lemma_bits_value_bound(b, p + 42, p + 42 + 5);
    crate::bits::lemma_bits_value_bound(b, p + 44, p + 44 + 5);
    crate::bits::lemma_bits_value_bound(b, p + 58, p + 58 + 1);
    let c = field(b, p + 29, 4);
    assert(slen1_of(c) <= 4 && slen2_of(c) <= 3) by {
        assert(c < 16);
    }
}

/// Bytes of side information: 17 for mono, 32 otherwise.
pub open spec fn side_info_len(mono: bool) -> nat {
    if mono { 17 } else { 32 }
}

/// Where the granule fields of granule `gr`, channel `ch` start.
pub open spec fn granule_pos(mono: bool, gr: int, ch: int) -> int {
    let nch: int = if mono { 1 } else { 2 };
    9 + (if mono { 5int } else { 3int }) + 4 * nch + 59 * (gr * nch + ch)
}

#[verifier::opaque]
pub open spec fn side_info_of(b: Seq<u8>, mono: bool) -> SideInfo {
    let s = 9 + if mono { 5int } else { 3int };
    SideInfo {
        main_data_begin: field(b, 0, 9),
        scfsi: [
            [field(b, s, 1) == 1, field(b, s + 1, 1) == 1, field(b, s + 2, 1) == 1, field(b, s + 3, 1) == 1],
            if mono {
                [false, false, false, false]
            } else {
                [field(b, s + 4, 1) == 1, field(b, s + 5, 1) == 1, field(b, s + 6, 1) == 1, field(b, s + 7, 1) == 1]
            },
        ],
        granules: [
            [
                granule_at(b, granule_pos(mono, 0, 0)),
                if mono { blank_granule() } else { granule_at(b, granule_pos(mono, 0, 1)) },
            ],
            [
                granule_at(b, granule_pos(mono, 1, 0)),
                if mono { blank_granule() } else { granule_at(b, granule_pos(mono, 1, 1)) },
            ],
        ],
    }
}

/// Window switching with block type 0 cannot occur.
pub open spec fn side_info_ok(si: SideInfo, mono: bool) -> bool {
    forall|gr: int, ch: int|
        0 <= gr < 2 && 0 <= ch < (if mono { 1int } else { 2int }) ==> !(#[trigger] si.granules[gr][ch]).window_switching
            || si.granules[gr][ch].block_type != 0
}

/// The outcome of reading the side information at the start of `b`.
pub open spec fn side_info_result(b: Seq<u8>, mono: bool) -> Result<SideInfo, DecodeError> {
    if b.len() < side_info_len(mono) {
        Err(DecodeError::EndOfStream)
    } else if !side_info_ok(side_info_of(b, mono), mono) {
        Err(DecodeError::InvalidSideInfo)
    } else {
        Ok(side_info_of(b, mono))
    }
}

fn slen(compress: u32) -> (r: (u32, u32))
    requires
        compress < 16,
    ensures
        r == (slen1_of(compress), slen2_of(compress)),
{
    let s1: [u32; 16] = [0, 0, 0, 0, 3, 1, 1, 1, 2, 2, 2, 3, 3, 3, 4, 4];
    let s2: [u32; 16] = [0, 1, 2, 3, 0, 1, 2, 3, 1, 2, 3, 1, 2, 3, 2, 3];
    proof {
        assert(s1@ =~= seq![0u32, 0, 0, 0, 3, 1, 1, 1, 2, 2, 2, 3, 3, 3, 4, 4]);
        assert(s2@ =~= seq![0u32, 1, 2, 3, 0, 1, 2, 3, 1, 2, 3, 1, 2, 3, 2, 3]);
    }
    (s1[compress as usize], s2[compress as usize])
}

proof fn lemma_bits_fit(b: Seq<u8>, p: int, n: int)
    requires
        0 <= n <= 16,
    ensures
        bits_value(b, p, p + n) < 0x1_0000,
{
    crate::bits::lemma_bits_value_bound(b, p, p + n);
    vstd::arithmetic::power2::lemma2_to64();
    if n < 16 {
        vstd::arithmetic::power2::lemma_pow2_strictly_increases(n as nat, 16);
    }
}

fn read_field(buf: &[u8], pos: &mut usize, n: usize) -> (r: u32)
    requires
        n <= 16,
        *old(pos) + n <= usize::MAX,
    ensures
        r == field(buf@, *old(pos) as int, n as int),
        r < 0x1_0000,
        *final(pos) == *old(pos) + n,
{
    proof {
        lemma_bits_fit(buf@, *old(pos) as int, n as int);
    }
    get_bits_inc(buf, pos, n)
}

fn read_granule(buf: &[u8], p: usize) -> (r: GranuleInfo)
    requires
        p + 59 <= usize::MAX,
    ensures
        r == granule_at(buf@, p as int),
{
    let mut pos = p;
    let part2_3_length = read_field(buf, &mut pos, 12);
    let big_value = read_field(buf, &mut pos, 9);
    let global_gain = read_field(buf, &mut pos, 8);
    let scalefac_compress = read_field(buf, &mut pos, 4);
    proof {
        crate::bits::lemma_bits_value_bound(buf@, p + 29, p + 33);
        vstd::arithmetic::power2::lemma2_to64();
    }
    let (slen1, slen2) = slen(scalefac_compress);
    let window_switching = read_field(buf, &mut pos, 1) == 1;
    let mut g = GranuleInfo {
        part2_3_length,
        big_value,
        global_gain,
        scalefac_compress,
        slen1,
        slen2,
        window_switching,
        block_type: 0,
        mixed_block_flag: false,
        switch_point_l: 0,
        switch_point_s: 0,
        table_select: [0, 0, 0],
        subblock_gain: [0, 0, 0],
        region0_count: 0,
        region1_count: 0,
        preflag: 0,
        scalefac_scale: 0,
        count1table_select: 0,
    };
    if window_switching {
        let block_type = read_field(buf, &mut pos, 2);
        let mixed = read_field(buf, &mut pos, 1) == 1;
        let t0 = read_field(buf, &mut pos, 5);
        let t1 = read_field(buf, &mut pos, 5);
        let g0 = read_field(buf, &mut pos, 3);
        let g1 = read_field(buf, &mut pos, 3);
        let g2 = read_field(buf, &mut pos, 3);
        let region0: u32 = if block_type == 2 { 8 } else { 7 };
        g.block_type = block_type;
        g.mixed_block_flag = mixed;
        g.switch_point_l = if mixed { 8 } else { 0 };
        g.switch_point_s = if mixed { 3 } else { 0 };
        g.table_select = [t0, t1, 0];
        g.subblock_gain = [g0, g1, g2];
        g.region0_count = region0;
        g.region1_count = 20 - region0;
    } else {
        let t0 = read_field(buf, &mut pos, 5);
        let t1 = read_field(buf, &mut pos, 5);
        let t2 = read_field(buf, &mut pos, 5);
        g.table_select = [t0, t1, t2];
        g.region0_count = read_field(buf, &mut pos, 4);
        g.region1_count = read_field(buf, &mut pos, 3);
    }
    g.preflag = read_field(buf, &mut pos, 1);
    g.scalefac_scale = read_field(buf, &mut pos, 1);
    g.count1table_select = read_field(buf, &mut pos, 1);
    g
}

/// Reads the side information that follows the header (and CRC) of a frame.
#[verifier::rlimit(50)]
pub fn parse_side_info(buf: &[u8], mono: bool) -> (r: Result<SideInfo, DecodeError>)
    ensures
        r == side_info_result(buf@, mono),
        r matches Ok(si) ==> forall|gr: int, ch: int|
            0 <= gr < 2 && 0 <= ch < 2 ==> granule_bounded(#[trigger] si.granules[gr][ch]),
{
    proof {
        reveal(side_info_of);
        lemma_granule_bounded(buf@, granule_pos(mono, 0, 0));
        lemma_granule_bounded(buf@, granule_pos(mono, 0, 1));
        lemma_granule_bounded(buf@, granule_pos(mono, 1, 0));
        lemma_granule_bounded(buf@, granule_pos(mono, 1, 1));
    }
    let need: usize = if mono { 17 } else { 32 };
    if buf.len() < need {
        return Err(DecodeError::EndOfStream);
    }
    let mut pos: usize = 0;
    let main_data_begin = read_field(buf, &mut pos, 9);
    let scfsi = read_scfsi(buf, mono);
    let pos: usize = if mono { 18 } else { 20 };
    let g00 = read_granule(buf, pos);
    let (g01, g10, g11) = if mono {
        (blank(), read_granule(buf, pos + 59), blank())
    } else {
        (read_granule(buf, pos + 59), read_granule(buf, pos + 118), read_granule(buf, pos + 177))
    };
    let si = SideInfo { main_data_begin, scfsi, granules: [[g00, g01], [g10, g11]] };
    proof {
        assert(si.granules[0]@ =~= side_info_of(buf@, mono).granules[0]@);
        assert(si.granules[1]@ =~= side_info_of(buf@, mono).granules[1]@);
        assert(si.granules@ =~= side_info_of(buf@, mono).granules@);
        assert(si == side_info_of(buf@, mono));
    }
    if (g00.window_switching && g00.block_type == 0) || (g10.window_switching && g10.block_type
        == 0) || (!mono && ((g01.window_switching && g01.block_type == 0) || (g11.window_switching
        && g11.block_type == 0))) {
        return Err(DecodeError::InvalidSideInfo);
    }
    Ok(si)
}

fn read_flag(buf: &[u8], p: usize) -> (r: bool)
    requires
        p < 64,
    ensures
        r == (field(buf@, p as int, 1) == 1),
{
    let mut pos = p;
    read_field(buf, &mut pos, 1) == 1
}

fn read_scfsi(buf: &[u8], mono: bool) -> (r: [[bool; 4]; 2])
    ensures
        r == side_info_of(buf@, mono).scfsi,
{
    proof {
        reveal(side_info_of);
    }
    let s: usize = if mono { 14 } else { 12 };
    let row0 = [read_flag(buf, s), read_flag(buf, s + 1), read_flag(buf, s + 2), read_flag(buf, s + 3)];
    let row1 = if mono {
        [false, false, false, false]
    } else {
        [read_flag(buf, s + 4), read_flag(buf, s + 5), read_flag(buf, s + 6), read_flag(buf, s + 7)]
    };
    let r = [row0, row1];
    proof {
        assert(row0@ =~= side_info_of(buf@, mono).scfsi[0]@);
        assert(row1@ =~= side_info_of(buf@, mono).scfsi[1]@);
        assert(r@ =~= side_info_of(buf@, mono).scfsi@);
    }
    r
}

fn blank() -> (r: GranuleInfo)
    ensures
        r == blank_granule(),
{
    GranuleInfo {
        part2_3_length: 0,
        big_value: 0,
        global_gain: 0,
        scalefac_compress: 0,
        slen1: 0,
        slen2: 0,
        window_switching: false,
        block_type: 0,
        mixed_block_flag: false,
        switch_point_l: 0,
        switch_point_s: 0,
        table_select: [0, 0, 0],
        subblock_gain: [0, 0, 0],
        region0_count: 0,
        region1_count: 0,
        preflag: 0,
        scalefac_scale: 0,
        count1table_select: 0,
    }
}

} // verus!
