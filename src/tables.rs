use crate::huffman::{HuffModel, HuffTable};
use vstd::prelude::*;

verus! {

/// Scalefactor band boundaries, in lines, of long and short blocks.
pub struct BandIndex {
    pub long_win: Vec<u32>,
    pub short_win: Vec<u32>,
}

/// Scalefactor band widths, in lines, of long and short blocks.
pub struct BandWidth {
    pub long_win: Vec<u32>,
    pub short_win: Vec<u32>,
}

pub open spec fn long_index_of(rate: u32) -> Seq<u32> {
    if rate == 48000 {
        seq![0u32, 4, 8, 12, 16, 20, 24, 30, 36, 42, 50, 60, 72, 88, 106, 128, 156, 190, 230, 276, 330, 384, 576]
    } else if rate == 32000 {
        seq![0u32, 4, 8, 12, 16, 20, 24, 30, 36, 44, 54, 66, 82, 102, 126, 156, 194, 240, 296, 364, 448, 550, 576]
    } else {
        seq![0u32, 4, 8, 12, 16, 20, 24, 30, 36, 44, 52, 62, 74, 90, 110, 134, 162, 196, 238, 288, 342, 418, 576]
    }
}

pub open spec fn short_index_of(rate: u32) -> Seq<u32> {
    if rate == 48000 {
        seq![0u32, 4, 8, 12, 16, 22, 28, 38, 50, 64, 80, 100, 126, 192]
    } else if rate == 32000 {
        seq![0u32, 4, 8, 12, 16, 22, 30, 42, 58, 78, 104, 138, 180, 192]
    } else {
        seq![0u32, 4, 8, 12, 16, 22, 30, 40, 52, 66, 84, 106, 136, 192]
    }
}

/// Consecutive differences of `s`.
pub open spec fn widths(s: Seq<u32>) -> Seq<u32> {
    Seq::new((s.len() - 1) as nat, |i: int| (s[i + 1] - s[i]) as u32)
}

fn long_index(rate: u32) -> (r: Vec<u32>)
    ensures
        r@ == long_index_of(rate),
{
    let v = if rate == 48000 {
        vec![0u32, 4, 8, 12, 16, 20, 24, 30, 36, 42, 50, 60, 72, 88, 106, 128, 156, 190, 230, 276, 330, 384, 576]
    } else if rate == 32000 {
        vec![0u32, 4, 8, 12, 16, 20, 24, 30, 36, 44, 54, 66, 82, 102, 126, 156, 194, 240, 296, 364, 448, 550, 576]
    } else {
        vec![0u32, 4, 8, 12, 16, 20, 24, 30, 36, 44, 52, 62, 74, 90, 110, 134, 162, 196, 238, 288, 342, 418, 576]
    };
    assert(v@ =~= long_index_of(rate));
    v
}

fn short_index(rate: u32) -> (r: Vec<u32>)
    ensures
        r@ == short_index_of(rate),
{
    let v = if rate == 48000 {
        vec![0u32, 4, 8, 12, 16, 22, 28, 38, 50, 64, 80, 100, 126, 192]
    } else if rate == 32000 {
        vec![0u32, 4, 8, 12, 16, 22, 30, 42, 58, 78, 104, 138, 180, 192]
    } else {
        vec![0u32, 4, 8, 12, 16, 22, 30, 40, 52, 66, 84, 106, 136, 192]
    };
    assert(v@ =~= short_index_of(rate));
    v
}

fn widths_of(s: &Vec<u32>) -> (r: Vec<u32>)
    requires
        s@.len() >= 1,
        forall|i: int| 0 <= i < s@.len() - 1 ==> #[trigger] s@[i] <= s@[i + 1],
    ensures
        r@ == widths(s@),
{
    let mut r: Vec<u32> = Vec::new();
    let mut i: usize = 0;
    while i < s.len() - 1
        invariant
            s@.len() >= 1,
            i + 1 <= s@.len(),
            forall|k: int| 0 <= k < s@.len() - 1 ==> #[trigger] s@[k] <= s@[k + 1],
            r@ == widths(s@).subrange(0, i as int),
        decreases s@.len() - i,
    {
        r.push(s[i + 1] - s[i]);
        proof {
            assert(r@ =~= widths(s@).subrange(0, i + 1));
        }
        i = i + 1;
    }
    proof {
        assert(r@ =~= widths(s@));
    }
    r
}

impl BandIndex {
    /// The band boundaries at `rate`; the 44.1 kHz ones for a rate that is
    /// neither 48 kHz nor 32 kHz.
    pub fn for_rate(rate: u32) -> (r: BandIndex)
        ensures
            r.long_win@ == long_index_of(rate),
            r.short_win@ == short_index_of(rate),
    {
        BandIndex { long_win: long_index(rate), short_win: short_index(rate) }
    }
}

impl BandWidth {
    /// The band widths at `rate`: the differences of the boundaries.
    pub fn for_rate(rate: u32) -> (r: BandWidth)
        ensures
            r.long_win@ == widths(long_index_of(rate)),
            r.short_win@ == widths(short_index_of(rate)),
    {
        let l = long_index(rate);
        let s = short_index(rate);
        BandWidth { long_win: widths_of(&l), short_win: widths_of(&s) }
    }
}

/// The pretab added to long-block scalefactors when `preflag` is set.
pub open spec fn pretab_of() -> Seq<u32> {
    seq![0u32, 0, 0, 0, 0, 0, 0, 0, 0, 0, 0, 1, 1, 1, 1, 2, 2, 3, 3, 3, 2, 0]
}

pub fn pretab() -> (r: Vec<u32>)
    ensures
        r@ == pretab_of(),
{
    let v = vec![0u32, 0, 0, 0, 0, 0, 0, 0, 0, 0, 0, 1, 1, 1, 1, 2, 2, 3, 3, 3, 2, 0];
    assert(v@ =~= pretab_of());
    v
}

/// Side of the square of pairs that big-value table `n` codes; 0 for the
/// table of zeros and for the numbers the standard leaves unused.
pub open spec fn table_dim(n: u32) -> u32 {
    if n == 1 { 2 } else if n == 2 || n == 3 { 3 } else if n == 5 || n == 6 { 4 }
    else if 7 <= n <= 9 { 6 } else if 10 <= n <= 12 { 8 } else if n == 13 || 15 <= n <= 31 { 16 }
    else { 0 }
}

/// Escape bits of big-value table `n`.
pub open spec fn table_linbits(n: u32) -> u32 {
    if n < 16 { 0 } else {
        seq![1u32, 2, 3, 4, 6, 8, 10, 13, 4, 5, 6, 7, 8, 9, 11, 13][(n - 16) as int]
    }
}

/// The code table that big-value table `n` uses: tables 16 to 23 share the
/// codes of 16, tables 24 to 31 those of 24, with their own escape bits.
/// Tables 0, 4 and 14 code nothing.
pub open spec fn source_table(n: u32) -> u32 {
    if 16 <= n <= 23 { 16 } else if 24 <= n <= 31 { 24 } else { n }
}

pub open spec fn codes_t1() -> Seq<u32> {
    seq![
        1u32, 1, 1, 0
    ]
}

pub open spec fn lens_t1() -> Seq<u32> {
    seq![
        1u32, 3, 2, 3
    ]
}

fn data_t1() -> (r: (Vec<u32>, Vec<u32>))
    ensures
        r.0@ == codes_t1(),
        r.1@ == lens_t1(),
{
    let codes = vec![
        1u32, 1, 1, 0
    ];
    let lens = vec![
        1u32, 3, 2, 3
    ];
    assert(codes@ =~= codes_t1());
    assert(lens@ =~= lens_t1());
    (codes, lens)
}

pub open spec fn codes_t2() -> Seq<u32> {
    seq![
        1u32, 2, 1, 3, 1, 1, 3, 2, 0
    ]
}

pub open spec fn lens_t2() -> Seq<u32> {
    seq![
        1u32, 3, 6, 3, 3, 5, 5, 5, 6
    ]
}

fn data_t2() -> (r: (Vec<u32>, Vec<u32>))
    ensures
        r.0@ == codes_t2(),
        r.1@ == lens_t2(),
{
    let codes = vec![
        1u32, 2, 1, 3, 1, 1, 3, 2, 0
    ];
    let lens = vec![
        1u32, 3, 6, 3, 3, 5, 5, 5, 6
    ];
    assert(codes@ =~= codes_t2());
    assert(lens@ =~= lens_t2());
    (codes, lens)
}

pub open spec fn codes_t3() -> Seq<u32> {
    seq![
        3u32, 2, 1, 1, 1, 1, 3, 2, 0
    ]
}

pub open spec fn lens_t3() -> Seq<u32> {
    seq![
        2u32, 2, 6, 3, 2, 5, 5, 5, 6
    ]
}

fn data_t3() -> (r: (Vec<u32>, Vec<u32>))
    ensures
        r.0@ == codes_t3(),
        r.1@ == lens_t3(),
{
    let codes = vec![
        3u32, 2, 1, 1, 1, 1, 3, 2, 0
    ];
    let lens = vec![
        2u32, 2, 6, 3, 2, 5, 5, 5, 6
    ];
    assert(codes@ =~= codes_t3());
    assert(lens@ =~= lens_t3());
    (codes, lens)
}

pub open spec fn codes_t5() -> Seq<u32> {
    seq![
        1u32, 2, 6, 5, 3, 1, 4, 4, 7, 5, 7, 1, 6, 1, 1, 0
    ]
}

pub open spec fn lens_t5() -> Seq<u32> {
    seq![
        1u32, 3, 6, 7, 3, 3, 6, 7, 6, 6, 7, 8, 7, 6, 7, 8
    ]
}

fn data_t5() -> (r: (Vec<u32>, Vec<u32>))
    ensures
        r.0@ == codes_t5(),
        r.1@ == lens_t5(),
{
    let codes = vec![
        1u32, 2, 6, 5, 3, 1, 4, 4, 7, 5, 7, 1, 6, 1, 1, 0
    ];
    let lens = vec![
        1u32, 3, 6, 7, 3, 3, 6, 7, 6, 6, 7, 8, 7, 6, 7, 8
    ];
    assert(codes@ =~= codes_t5());
    assert(lens@ =~= lens_t5());
    (codes, lens)
}

pub open spec fn codes_t6() -> Seq<u32> {
    seq![
        7u32, 3, 5, 1, 6, 2, 3, 2, 5, 4, 4, 1, 3, 3, 2, 0
    ]
}

pub open spec fn lens_t6() -> Seq<u32> {
    seq![
        3u32, 3, 5, 7, 3, 2, 4, 5, 4, 4, 5, 6, 6, 5, 6, 7
    ]
}

fn data_t6() -> (r: (Vec<u32>, Vec<u32>))
    ensures
        r.0@ == codes_t6(),
        r.1@ == lens_t6(),
{
    let codes = vec![
        7u32, 3, 5, 1, 6, 2, 3, 2, 5, 4, 4, 1, 3, 3, 2, 0
    ];
    let lens = vec![
        3u32, 3, 5, 7, 3, 2, 4, 5, 4, 4, 5, 6, 6, 5, 6, 7
    ];
    assert(codes@ =~= codes_t6());
    assert(lens@ =~= lens_t6());
    (codes, lens)
}

pub open spec fn codes_t7() -> Seq<u32> {
    seq![
        1u32, 2, 10, 19, 16, 10, 3, 3, 7, 10, 5, 3, 11, 4, 13, 17, 8, 4, 12, 11, 18, 15, 11, 2, 7,
        6, 9, 14, 3, 1, 6, 4, 5, 3, 2, 0
    ]
}

pub open spec fn lens_t7() -> Seq<u32> {
    seq![
        1u32, 3, 6, 8, 8, 9, 3, 4, 6, 7, 7, 8, 6, 5, 7, 8, 8, 9, 7, 7, 8, 9, 9, 9, 7, 7, 8, 9, 9,
        10, 8, 8, 9, 10, 10, 10
    ]
}

fn data_t7() -> (r: (Vec<u32>, Vec<u32>))
    ensures
        r.0@ == codes_t7(),
        r.1@ == lens_t7(),
{
    let codes = vec![
        1u32, 2, 10, 19, 16, 10, 3, 3, 7, 10, 5, 3, 11, 4, 13, 17, 8, 4, 12, 11, 18, 15, 11, 2, 7,
        6, 9, 14, 3, 1, 6, 4, 5, 3, 2, 0
    ];
    let lens = vec![
        1u32, 3, 6, 8, 8, 9, 3, 4, 6, 7, 7, 8, 6, 5, 7, 8, 8, 9, 7, 7, 8, 9, 9, 9, 7, 7, 8, 9, 9,
        10, 8, 8, 9, 10, 10, 10
    ];
    assert(codes@ =~= codes_t7());
    assert(lens@ =~= lens_t7());
    (codes, lens)
}

pub open spec fn codes_t8() -> Seq<u32> {
    seq![
        3u32, 4, 6, 18, 12, 5, 5, 1, 2, 16, 9, 3, 7, 3, 5, 14, 7, 3, 19, 17, 15, 13, 10, 4, 13, 5,
        8, 11, 5, 1, 12, 4, 4, 1, 1, 0
    ]
}

pub open spec fn lens_t8() -> Seq<u32> {
    seq![
        2u32, 3, 6, 8, 8, 9, 3, 2, 4, 8, 8, 8, 6, 4, 6, 8, 8, 9, 8, 8, 8, 9, 9, 10, 8, 7, 8, 9, 10,
        10, 9, 8, 9, 9, 11, 11
    ]
}

fn data_t8() -> (r: (Vec<u32>, Vec<u32>))
    ensures
        r.0@ == codes_t8(),
        r.1@ == lens_t8(),
{
    let codes = vec![
        3u32, 4, 6, 18, 12, 5, 5, 1, 2, 16, 9, 3, 7, 3, 5, 14, 7, 3, 19, 17, 15, 13, 10, 4, 13, 5,
        8, 11, 5, 1, 12, 4, 4, 1, 1, 0
    ];
    let lens = vec![
        2u32, 3, 6, 8, 8, 9, 3, 2, 4, 8, 8, 8, 6, 4, 6, 8, 8, 9, 8, 8, 8, 9, 9, 10, 8, 7, 8, 9, 10,
        10, 9, 8, 9, 9, 11, 11
    ];
    assert(codes@ =~= codes_t8());
    assert(lens@ =~= lens_t8());
    (codes, lens)
}

pub open spec fn codes_t9() -> Seq<u32> {
    seq![
        7u32, 5, 9, 14, 15, 7, 6, 4, 5, 5, 6, 7, 7, 6, 8, 8, 8, 5, 15, 6, 9, 10, 5, 1, 11, 7, 9, 6,
        4, 1, 14, 4, 6, 2, 6, 0
    ]
}

pub open spec fn lens_t9() -> Seq<u32> {
    seq![
        3u32, 3, 5, 6, 8, 9, 3, 3, 4, 5, 6, 8, 4, 4, 5, 6, 7, 8, 6, 5, 6, 7, 7, 8, 7, 6, 7, 7, 8,
        9, 8, 7, 8, 8, 9, 9
    ]
}

fn data_t9() -> (r: (Vec<u32>, Vec<u32>))
    ensures
        r.0@ == codes_t9(),
        r.1@ == lens_t9(),
{
    let codes = vec![
        7u32, 5, 9, 14, 15, 7, 6, 4, 5, 5, 6, 7, 7, 6, 8, 8, 8, 5, 15, 6, 9, 10, 5, 1, 11, 7, 9, 6,
        4, 1, 14, 4, 6, 2, 6, 0
    ];
    let lens = vec![
        3u32, 3, 5, 6, 8, 9, 3, 3, 4, 5, 6, 8, 4, 4, 5, 6, 7, 8, 6, 5, 6, 7, 7, 8, 7, 6, 7, 7, 8,
        9, 8, 7, 8, 8, 9, 9
    ];
    assert(codes@ =~= codes_t9());
    assert(lens@ =~= lens_t9());
    (codes, lens)
}

pub open spec fn codes_t10() -> Seq<u32> {
    seq![
        1u32, 2, 10, 23, 35, 30, 12, 17, 3, 3, 8, 12, 18, 21, 12, 7, 11, 9, 15, 21, 32, 40, 19, 6,
        14, 13, 22, 34, 46, 23, 18, 7, 20, 19, 33, 47, 27, 22, 9, 3, 31, 22, 41, 26, 21, 20, 5, 3,
        14, 13, 10, 11, 16, 6, 5, 1, 9, 8, 7, 8, 4, 4, 2, 0
    ]
}

pub open spec fn lens_t10() -> Seq<u32> {
    seq![
        1u32, 3, 6, 8, 9, 9, 9, 10, 3, 4, 6, 7, 8, 9, 8, 8, 6, 6, 7, 8, 9, 10, 9, 9, 7, 7, 8, 9,
        10, 10, 9, 10, 8, 8, 9, 10, 10, 10, 10, 10, 9, 9, 10, 10, 11, 11, 10, 11, 8, 8, 9, 10, 10,
        10, 11, 11, 9, 8, 9, 10, 10, 11, 11, 11
    ]
}

fn data_t10() -> (r: (Vec<u32>, Vec<u32>))
    ensures
        r.0@ == codes_t10(),
        r.1@ == lens_t10(),
{
    let codes = vec![
        1u32, 2, 10, 23, 35, 30, 12, 17, 3, 3, 8, 12, 18, 21, 12, 7, 11, 9, 15, 21, 32, 40, 19, 6,
        14, 13, 22, 34, 46, 23, 18, 7, 20, 19, 33, 47, 27, 22, 9, 3, 31, 22, 41, 26, 21, 20, 5, 3,
        14, 13, 10, 11, 16, 6, 5, 1, 9, 8, 7, 8, 4, 4, 2, 0
    ];
    let lens = vec![
        1u32, 3, 6, 8, 9, 9, 9, 10, 3, 4, 6, 7, 8, 9, 8, 8, 6, 6, 7, 8, 9, 10, 9, 9, 7, 7, 8, 9,
        10, 10, 9, 10, 8, 8, 9, 10, 10, 10, 10, 10, 9, 9, 10, 10, 11, 11, 10, 11, 8, 8, 9, 10, 10,
        10, 11, 11, 9, 8, 9, 10, 10, 11, 11, 11
    ];
    assert(codes@ =~= codes_t10());
    assert(lens@ =~= lens_t10());
    (codes, lens)
}

pub open spec fn codes_t11() -> Seq<u32> {
    seq![
        3u32, 4, 10, 24, 34, 33, 21, 15, 5, 3, 4, 10, 32, 17, 11, 10, 11, 7, 13, 18, 30, 31, 20, 5,
        25, 11, 19, 59, 27, 18, 12, 5, 35, 33, 31, 58, 30, 16, 7, 5, 28, 26, 32, 19, 17, 15, 8, 14,
        14, 12, 9, 13, 14, 9, 4, 1, 11, 4, 6, 6, 6, 3, 2, 0
    ]
}

pub open spec fn lens_t11() -> Seq<u32> {
    seq![
        2u32, 3, 5, 7, 8, 9, 8, 9, 3, 3, 4, 6, 8, 8, 7, 8, 5, 5, 6, 7, 8, 9, 8, 8, 7, 6, 7, 9, 8,
        10, 8, 9, 8, 8, 8, 9, 9, 10, 9, 10, 8, 8, 9, 10, 10, 11, 10, 11, 8, 7, 7, 8, 9, 10, 10, 10,
        8, 7, 8, 9, 10, 10, 10, 10
    ]
}

fn data_t11() -> (r: (Vec<u32>, Vec<u32>))
    ensures
        r.0@ == codes_t11(),
        r.1@ == lens_t11(),
{
    let codes = vec![
        3u32, 4, 10, 24, 34, 33, 21, 15, 5, 3, 4, 10, 32, 17, 11, 10, 11, 7, 13, 18, 30, 31, 20, 5,
        25, 11, 19, 59, 27, 18, 12, 5, 35, 33, 31, 58, 30, 16, 7, 5, 28, 26, 32, 19, 17, 15, 8, 14,
        14, 12, 9, 13, 14, 9, 4, 1, 11, 4, 6, 6, 6, 3, 2, 0
    ];
    let lens = vec![
        2u32, 3, 5, 7, 8, 9, 8, 9, 3, 3, 4, 6, 8, 8, 7, 8, 5, 5, 6, 7, 8, 9, 8, 8, 7, 6, 7, 9, 8,
        10, 8, 9, 8, 8, 8, 9, 9, 10, 9, 10, 8, 8, 9, 10, 10, 11, 10, 11, 8, 7, 7, 8, 9, 10, 10, 10,
        8, 7, 8, 9, 10, 10, 10, 10
    ];
    assert(codes@ =~= codes_t11());
    assert(lens@ =~= lens_t11());
    (codes, lens)
}

pub open spec fn codes_t12() -> Seq<u32> {
    seq![
        9u32, 6, 16, 33, 41, 39, 38, 26, 7, 5, 6, 9, 23, 16, 26, 11, 17, 7, 11, 14, 21, 30, 10, 7,
        17, 10, 15, 12, 18, 28, 14, 5, 32, 13, 22, 19, 18, 16, 9, 5, 40, 17, 31, 29, 17, 13, 4, 2,
        27, 12, 11, 15, 10, 7, 4, 1, 27, 12, 8, 12, 6, 3, 1, 0
    ]
}

pub open spec fn lens_t12() -> Seq<u32> {
    seq![
        4u32, 3, 5, 7, 8, 9, 9, 9, 3, 3, 4, 5, 7, 7, 8, 8, 5, 4, 5, 6, 7, 8, 7, 8, 6, 5, 6, 6, 7,
        8, 8, 8, 7, 6, 7, 7, 8, 8, 8, 9, 8, 7, 8, 8, 8, 9, 8, 9, 8, 7, 7, 8, 8, 9, 9, 10, 9, 8, 8,
        9, 9, 9, 9, 10
    ]
}

fn data_t12() -> (r: (Vec<u32>, Vec<u32>))
    ensures
        r.0@ == codes_t12(),
        r.1@ == lens_t12(),
{
    let codes = vec![
        9u32, 6, 16, 33, 41, 39, 38, 26, 7, 5, 6, 9, 23, 16, 26, 11, 17, 7, 11, 14, 21, 30, 10, 7,
        17, 10, 15, 12, 18, 28, 14, 5, 32, 13, 22, 19, 18, 16, 9, 5, 40, 17, 31, 29, 17, 13, 4, 2,
        27, 12, 11, 15, 10, 7, 4, 1, 27, 12, 8, 12, 6, 3, 1, 0
    ];
    let lens = vec![
        4u32, 3, 5, 7, 8, 9, 9, 9, 3, 3, 4, 5, 7, 7, 8, 8, 5, 4, 5, 6, 7, 8, 7, 8, 6, 5, 6, 6, 7,
        8, 8, 8, 7, 6, 7, 7, 8, 8, 8, 9, 8, 7, 8, 8, 8, 9, 8, 9, 8, 7, 7, 8, 8, 9, 9, 10, 9, 8, 8,
        9, 9, 9, 9, 10
    ];
    assert(codes@ =~= codes_t12());
    assert(lens@ =~= lens_t12());
    (codes, lens)
}

pub open spec fn codes_t13() -> Seq<u32> {
    seq![
        1u32, 5, 14, 21, 34, 51, 46, 71, 42, 52, 68, 52, 67, 44, 43, 19, 3, 4, 12, 19, 31, 26, 44,
        33, 31, 24, 32, 24, 31, 35, 22, 14, 15, 13, 23, 36, 59, 49, 77, 65, 29, 40, 30, 40, 27, 33,
        42, 16, 22, 20, 37, 61, 56, 79, 73, 64, 43, 76, 56, 37, 26, 31, 25, 14, 35, 16, 60, 57, 97,
        75, 114, 91, 54, 73, 55, 41, 48, 53, 23, 24, 58, 27, 50, 96, 76, 70, 93, 84, 77, 58, 79,
        29, 74, 49, 41, 17, 47, 45, 78, 74, 115, 94, 90, 79, 69, 83, 71, 50, 59, 38, 36, 15, 72,
        34, 56, 95, 92, 85, 91, 90, 86, 73, 77, 65, 51, 44, 43, 42, 43, 20, 30, 44, 55, 78, 72, 87,
        78, 61, 46, 54, 37, 30, 20, 16, 53, 25, 41, 37, 44, 59, 54, 81, 66, 76, 57, 54, 37, 18, 39,
        11, 35, 33, 31, 57, 42, 82, 72, 80, 47, 58, 55, 21, 22, 26, 38, 22, 53, 25, 23, 38, 70, 60,
        51, 36, 55, 26, 34, 23, 27, 14, 9, 7, 34, 32, 28, 39, 49, 75, 30, 52, 48, 40, 52, 28, 18,
        17, 9, 5, 45, 21, 34, 64, 56, 50, 49, 45, 31, 19, 12, 15, 10, 7, 6, 3, 48, 23, 20, 39, 36,
        35, 53, 21, 16, 23, 13, 10, 6, 1, 4, 2, 16, 15, 17, 27, 25, 20, 29, 11, 17, 12, 16, 8, 1,
        1, 0, 1
    ]
}

pub open spec fn lens_t13() -> Seq<u32> {
    seq![
        1u32, 4, 6, 7, 8, 9, 9, 10, 9, 10, 11, 11, 12, 12, 13, 13, 3, 4, 6, 7, 8, 8, 9, 9, 9, 9,
        10, 10, 11, 12, 12, 12, 6, 6, 7, 8, 9, 9, 10, 10, 9, 10, 10, 11, 11, 12, 13, 13, 7, 7, 8,
        9, 9, 10, 10, 10, 10, 11, 11, 11, 11, 12, 13, 13, 8, 7, 9, 9, 10, 10, 11, 11, 10, 11, 11,
        12, 12, 13, 13, 14, 9, 8, 9, 10, 10, 10, 11, 11, 11, 11, 12, 11, 13, 13, 14, 14, 9, 9, 10,
        10, 11, 11, 11, 11, 11, 12, 12, 12, 13, 13, 14, 14, 10, 9, 10, 11, 11, 11, 12, 12, 12, 12,
        13, 13, 13, 14, 16, 16, 9, 8, 9, 10, 10, 11, 11, 12, 12, 12, 12, 13, 13, 14, 15, 15, 10, 9,
        10, 10, 11, 11, 11, 13, 12, 13, 13, 14, 14, 14, 16, 15, 10, 10, 10, 11, 11, 12, 12, 13, 12,
        13, 14, 13, 14, 15, 16, 17, 11, 10, 10, 11, 12, 12, 12, 12, 13, 13, 13, 14, 15, 15, 15, 16,
        11, 11, 11, 12, 12, 13, 12, 13, 14, 14, 15, 15, 15, 16, 16, 16, 12, 11, 12, 13, 13, 13, 14,
        14, 14, 14, 14, 15, 16, 15, 16, 16, 13, 12, 12, 13, 13, 13, 15, 14, 14, 17, 15, 15, 15, 17,
        16, 16, 12, 12, 13, 14, 14, 14, 15, 14, 15, 15, 16, 16, 19, 18, 19, 16
    ]
}

fn data_t13() -> (r: (Vec<u32>, Vec<u32>))
    ensures
        r.0@ == codes_t13(),
        r.1@ == lens_t13(),
{
    let codes = vec![
        1u32, 5, 14, 21, 34, 51, 46, 71, 42, 52, 68, 52, 67, 44, 43, 19, 3, 4, 12, 19, 31, 26, 44,
        33, 31, 24, 32, 24, 31, 35, 22, 14, 15, 13, 23, 36, 59, 49, 77, 65, 29, 40, 30, 40, 27, 33,
        42, 16, 22, 20, 37, 61, 56, 79, 73, 64, 43, 76, 56, 37, 26, 31, 25, 14, 35, 16, 60, 57, 97,
        75, 114, 91, 54, 73, 55, 41, 48, 53, 23, 24, 58, 27, 50, 96, 76, 70, 93, 84, 77, 58, 79,
        29, 74, 49, 41, 17, 47, 45, 78, 74, 115, 94, 90, 79, 69, 83, 71, 50, 59, 38, 36, 15, 72,
        34, 56, 95, 92, 85, 91, 90, 86, 73, 77, 65, 51, 44, 43, 42, 43, 20, 30, 44, 55, 78, 72, 87,
        78, 61, 46, 54, 37, 30, 20, 16, 53, 25, 41, 37, 44, 59, 54, 81, 66, 76, 57, 54, 37, 18, 39,
        11, 35, 33, 31, 57, 42, 82, 72, 80, 47, 58, 55, 21, 22, 26, 38, 22, 53, 25, 23, 38, 70, 60,
        51, 36, 55, 26, 34, 23, 27, 14, 9, 7, 34, 32, 28, 39, 49, 75, 30, 52, 48, 40, 52, 28, 18,
        17, 9, 5, 45, 21, 34, 64, 56, 50, 49, 45, 31, 19, 12, 15, 10, 7, 6, 3, 48, 23, 20, 39, 36,
        35, 53, 21, 16, 23, 13, 10, 6, 1, 4, 2, 16, 15, 17, 27, 25, 20, 29, 11, 17, 12, 16, 8, 1,
        1, 0, 1
    ];
    let lens = vec![
        1u32, 4, 6, 7, 8, 9, 9, 10, 9, 10, 11, 11, 12, 12, 13, 13, 3, 4, 6, 7, 8, 8, 9, 9, 9, 9,
        10, 10, 11, 12, 12, 12, 6, 6, 7, 8, 9, 9, 10, 10, 9, 10, 10, 11, 11, 12, 13, 13, 7, 7, 8,
        9, 9, 10, 10, 10, 10, 11, 11, 11, 11, 12, 13, 13, 8, 7, 9, 9, 10, 10, 11, 11, 10, 11, 11,
        12, 12, 13, 13, 14, 9, 8, 9, 10, 10, 10, 11, 11, 11, 11, 12, 11, 13, 13, 14, 14, 9, 9, 10,
        10, 11, 11, 11, 11, 11, 12, 12, 12, 13, 13, 14, 14, 10, 9, 10, 11, 11, 11, 12, 12, 12, 12,
        13, 13, 13, 14, 16, 16, 9, 8, 9, 10, 10, 11, 11, 12, 12, 12, 12, 13, 13, 14, 15, 15, 10, 9,
        10, 10, 11, 11, 11, 13, 12, 13, 13, 14, 14, 14, 16, 15, 10, 10, 10, 11, 11, 12, 12, 13, 12,
        13, 14, 13, 14, 15, 16, 17, 11, 10, 10, 11, 12, 12, 12, 12, 13, 13, 13, 14, 15, 15, 15, 16,
        11, 11, 11, 12, 12, 13, 12, 13, 14, 14, 15, 15, 15, 16, 16, 16, 12, 11, 12, 13, 13, 13, 14,
        14, 14, 14, 14, 15, 16, 15, 16, 16, 13, 12, 12, 13, 13, 13, 15, 14, 14, 17, 15, 15, 15, 17,
        16, 16, 12, 12, 13, 14, 14, 14, 15, 14, 15, 15, 16, 16, 19, 18, 19, 16
    ];
    assert(codes@ =~= codes_t13());
    assert(lens@ =~= lens_t13());
    (codes, lens)
}

pub open spec fn codes_t15() -> Seq<u32> {
    seq![
        7u32, 12, 18, 53, 47, 76, 124, 108, 89, 123, 108, 119, 107, 81, 122, 63, 13, 5, 16, 27, 46,
        36, 61, 51, 42, 70, 52, 83, 65, 41, 59, 36, 19, 17, 15, 24, 41, 34, 59, 48, 40, 64, 50, 78,
        62, 80, 56, 33, 29, 28, 25, 43, 39, 63, 55, 93, 76, 59, 93, 72, 54, 75, 50, 29, 52, 22, 42,
        40, 67, 57, 95, 79, 72, 57, 89, 69, 49, 66, 46, 27, 77, 37, 35, 66, 58, 52, 91, 74, 62, 48,
        79, 63, 90, 62, 40, 38, 125, 32, 60, 56, 50, 92, 78, 65, 55, 87, 71, 51, 73, 51, 70, 30,
        109, 53, 49, 94, 88, 75, 66, 122, 91, 73, 56, 42, 64, 44, 21, 25, 90, 43, 41, 77, 73, 63,
        56, 92, 77, 66, 47, 67, 48, 53, 36, 20, 71, 34, 67, 60, 58, 49, 88, 76, 67, 106, 71, 54,
        38, 39, 23, 15, 109, 53, 51, 47, 90, 82, 58, 57, 48, 72, 57, 41, 23, 27, 62, 9, 86, 42, 40,
        37, 70, 64, 52, 43, 70, 55, 42, 25, 29, 18, 11, 11, 118, 68, 30, 55, 50, 46, 74, 65, 49,
        39, 24, 16, 22, 13, 14, 7, 91, 44, 39, 38, 34, 63, 52, 45, 31, 52, 28, 19, 14, 8, 9, 3,
        123, 60, 58, 53, 47, 43, 32, 22, 37, 24, 17, 12, 15, 10, 2, 1, 71, 37, 34, 30, 28, 20, 17,
        26, 21, 16, 10, 6, 8, 6, 2, 0
    ]
}

pub open spec fn lens_t15() -> Seq<u32> {
    seq![
        3u32, 4, 5, 7, 7, 8, 9, 9, 9, 10, 10, 11, 11, 11, 12, 13, 4, 3, 5, 6, 7, 7, 8, 8, 8, 9, 9,
        10, 10, 10, 11, 11, 5, 5, 5, 6, 7, 7, 8, 8, 8, 9, 9, 10, 10, 11, 11, 11, 6, 6, 6, 7, 7, 8,
        8, 9, 9, 9, 10, 10, 10, 11, 11, 11, 7, 6, 7, 7, 8, 8, 9, 9, 9, 9, 10, 10, 10, 11, 11, 11,
        8, 7, 7, 8, 8, 8, 9, 9, 9, 9, 10, 10, 11, 11, 11, 12, 9, 7, 8, 8, 8, 9, 9, 9, 9, 10, 10,
        10, 11, 11, 12, 12, 9, 8, 8, 9, 9, 9, 9, 10, 10, 10, 10, 10, 11, 11, 11, 12, 9, 8, 8, 9, 9,
        9, 9, 10, 10, 10, 10, 11, 11, 12, 12, 12, 9, 8, 9, 9, 9, 9, 10, 10, 10, 11, 11, 11, 11, 12,
        12, 12, 10, 9, 9, 9, 10, 10, 10, 10, 10, 11, 11, 11, 11, 12, 13, 12, 10, 9, 9, 9, 10, 10,
        10, 10, 11, 11, 11, 11, 12, 12, 12, 13, 11, 10, 9, 10, 10, 10, 11, 11, 11, 11, 11, 11, 12,
        12, 13, 13, 11, 10, 10, 10, 10, 11, 11, 11, 11, 12, 12, 12, 12, 12, 13, 13, 12, 11, 11, 11,
        11, 11, 11, 11, 12, 12, 12, 12, 13, 13, 12, 13, 12, 11, 11, 11, 11, 11, 11, 12, 12, 12, 12,
        12, 13, 13, 13, 13
    ]
}

fn data_t15() -> (r: (Vec<u32>, Vec<u32>))
    ensures
        r.0@ == codes_t15(),
        r.1@ == lens_t15(),
{
    let codes = vec![
        7u32, 12, 18, 53, 47, 76, 124, 108, 89, 123, 108, 119, 107, 81, 122, 63, 13, 5, 16, 27, 46,
        36, 61, 51, 42, 70, 52, 83, 65, 41, 59, 36, 19, 17, 15, 24, 41, 34, 59, 48, 40, 64, 50, 78,
        62, 80, 56, 33, 29, 28, 25, 43, 39, 63, 55, 93, 76, 59, 93, 72, 54, 75, 50, 29, 52, 22, 42,
        40, 67, 57, 95, 79, 72, 57, 89, 69, 49, 66, 46, 27, 77, 37, 35, 66, 58, 52, 91, 74, 62, 48,
        79, 63, 90, 62, 40, 38, 125, 32, 60, 56, 50, 92, 78, 65, 55, 87, 71, 51, 73, 51, 70, 30,
        109, 53, 49, 94, 88, 75, 66, 122, 91, 73, 56, 42, 64, 44, 21, 25, 90, 43, 41, 77, 73, 63,
        56, 92, 77, 66, 47, 67, 48, 53, 36, 20, 71, 34, 67, 60, 58, 49, 88, 76, 67, 106, 71, 54,
        38, 39, 23, 15, 109, 53, 51, 47, 90, 82, 58, 57, 48, 72, 57, 41, 23, 27, 62, 9, 86, 42, 40,
        37, 70, 64, 52, 43, 70, 55, 42, 25, 29, 18, 11, 11, 118, 68, 30, 55, 50, 46, 74, 65, 49,
        39, 24, 16, 22, 13, 14, 7, 91, 44, 39, 38, 34, 63, 52, 45, 31, 52, 28, 19, 14, 8, 9, 3,
        123, 60, 58, 53, 47, 43, 32, 22, 37, 24, 17, 12, 15, 10, 2, 1, 71, 37, 34, 30, 28, 20, 17,
        26, 21, 16, 10, 6, 8, 6, 2, 0
    ];
    let lens = vec![
        3u32, 4, 5, 7, 7, 8, 9, 9, 9, 10, 10, 11, 11, 11, 12, 13, 4, 3, 5, 6, 7, 7, 8, 8, 8, 9, 9,
        10, 10, 10, 11, 11, 5, 5, 5, 6, 7, 7, 8, 8, 8, 9, 9, 10, 10, 11, 11, 11, 6, 6, 6, 7, 7, 8,
        8, 9, 9, 9, 10, 10, 10, 11, 11, 11, 7, 6, 7, 7, 8, 8, 9, 9, 9, 9, 10, 10, 10, 11, 11, 11,
        8, 7, 7, 8, 8, 8, 9, 9, 9, 9, 10, 10, 11, 11, 11, 12, 9, 7, 8, 8, 8, 9, 9, 9, 9, 10, 10,
        10, 11, 11, 12, 12, 9, 8, 8, 9, 9, 9, 9, 10, 10, 10, 10, 10, 11, 11, 11, 12, 9, 8, 8, 9, 9,
        9, 9, 10, 10, 10, 10, 11, 11, 12, 12, 12, 9, 8, 9, 9, 9, 9, 10, 10, 10, 11, 11, 11, 11, 12,
        12, 12, 10, 9, 9, 9, 10, 10, 10, 10, 10, 11, 11, 11, 11, 12, 13, 12, 10, 9, 9, 9, 10, 10,
        10, 10, 11, 11, 11, 11, 12, 12, 12, 13, 11, 10, 9, 10, 10, 10, 11, 11, 11, 11, 11, 11, 12,
        12, 13, 13, 11, 10, 10, 10, 10, 11, 11, 11, 11, 12, 12, 12, 12, 12, 13, 13, 12, 11, 11, 11,
        11, 11, 11, 11, 12, 12, 12, 12, 13, 13, 12, 13, 12, 11, 11, 11, 11, 11, 11, 12, 12, 12, 12,
        12, 13, 13, 13, 13
    ];
    assert(codes@ =~= codes_t15());
    assert(lens@ =~= lens_t15());
    (codes, lens)
}

pub open spec fn codes_t16() -> Seq<u32> {
    seq![
        1u32, 5, 14, 44, 74, 63, 110, 93, 172, 149, 138, 242, 225, 195, 376, 17, 3, 4, 12, 20, 35,
        62, 53, 47, 83, 75, 68, 119, 201, 107, 207, 9, 15, 13, 23, 38, 67, 58, 103, 90, 161, 72,
        127, 117, 110, 209, 206, 16, 45, 21, 39, 69, 64, 114, 99, 87, 158, 140, 252, 212, 199, 387,
        365, 26, 75, 36, 68, 65, 115, 101, 179, 164, 155, 264, 246, 226, 395, 382, 362, 9, 66, 30,
        59, 56, 102, 185, 173, 265, 142, 253, 232, 400, 388, 378, 445, 16, 111, 54, 52, 100, 184,
        178, 160, 133, 257, 244, 228, 217, 385, 366, 715, 10, 98, 48, 91, 88, 165, 157, 148, 261,
        248, 407, 397, 372, 380, 889, 884, 8, 85, 84, 81, 159, 156, 143, 260, 249, 427, 401, 392,
        383, 727, 713, 708, 7, 154, 76, 73, 141, 131, 256, 245, 426, 406, 394, 384, 735, 359, 710,
        352, 11, 139, 129, 67, 125, 247, 233, 229, 219, 393, 743, 737, 720, 885, 882, 439, 4, 243,
        120, 118, 115, 227, 223, 396, 746, 742, 736, 721, 712, 706, 223, 436, 6, 202, 224, 222,
        218, 216, 389, 386, 381, 364, 888, 443, 707, 440, 437, 1728, 4, 747, 211, 210, 208, 370,
        379, 734, 723, 714, 1735, 883, 877, 876, 3459, 865, 2, 377, 369, 102, 187, 726, 722, 358,
        711, 709, 866, 1734, 871, 3458, 870, 434, 0, 12, 10, 7, 11, 10, 17, 11, 9, 13, 12, 10, 7,
        5, 3, 1, 3
    ]
}

pub open spec fn lens_t16() -> Seq<u32> {
    seq![
        1u32, 4, 6, 8, 9, 9, 10, 10, 11, 11, 11, 12, 12, 12, 13, 9, 3, 4, 6, 7, 8, 9, 9, 9, 10, 10,
        10, 11, 12, 11, 12, 8, 6, 6, 7, 8, 9, 9, 10, 10, 11, 10, 11, 11, 11, 12, 12, 9, 8, 7, 8, 9,
        9, 10, 10, 10, 11, 11, 12, 12, 12, 13, 13, 10, 9, 8, 9, 9, 10, 10, 11, 11, 11, 12, 12, 12,
        13, 13, 13, 9, 9, 8, 9, 9, 10, 11, 11, 12, 11, 12, 12, 13, 13, 13, 14, 10, 10, 9, 9, 10,
        11, 11, 11, 11, 12, 12, 12, 12, 13, 13, 14, 10, 10, 9, 10, 10, 11, 11, 11, 12, 12, 13, 13,
        13, 13, 15, 15, 10, 10, 10, 10, 11, 11, 11, 12, 12, 13, 13, 13, 13, 14, 14, 14, 10, 11, 10,
        10, 11, 11, 12, 12, 13, 13, 13, 13, 14, 13, 14, 13, 11, 11, 11, 10, 11, 12, 12, 12, 12, 13,
        14, 14, 14, 15, 15, 14, 10, 12, 11, 11, 11, 12, 12, 13, 14, 14, 14, 14, 14, 14, 13, 14, 11,
        12, 12, 12, 12, 12, 13, 13, 13, 13, 15, 14, 14, 14, 14, 16, 11, 14, 12, 12, 12, 13, 13, 14,
        14, 14, 16, 15, 15, 15, 17, 15, 11, 13, 13, 11, 12, 14, 14, 13, 14, 14, 15, 16, 15, 17, 15,
        14, 11, 9, 8, 8, 9, 9, 10, 10, 10, 11, 11, 11, 11, 11, 11, 11, 8
    ]
}

fn data_t16() -> (r: (Vec<u32>, Vec<u32>))
    ensures
        r.0@ == codes_t16(),
        r.1@ == lens_t16(),
{
    let codes = vec![
        1u32, 5, 14, 44, 74, 63, 110, 93, 172, 149, 138, 242, 225, 195, 376, 17, 3, 4, 12, 20, 35,
        62, 53, 47, 83, 75, 68, 119, 201, 107, 207, 9, 15, 13, 23, 38, 67, 58, 103, 90, 161, 72,
        127, 117, 110, 209, 206, 16, 45, 21, 39, 69, 64, 114, 99, 87, 158, 140, 252, 212, 199, 387,
        365, 26, 75, 36, 68, 65, 115, 101, 179, 164, 155, 264, 246, 226, 395, 382, 362, 9, 66, 30,
        59, 56, 102, 185, 173, 265, 142, 253, 232, 400, 388, 378, 445, 16, 111, 54, 52, 100, 184,
        178, 160, 133, 257, 244, 228, 217, 385, 366, 715, 10, 98, 48, 91, 88, 165, 157, 148, 261,
        248, 407, 397, 372, 380, 889, 884, 8, 85, 84, 81, 159, 156, 143, 260, 249, 427, 401, 392,
        383, 727, 713, 708, 7, 154, 76, 73, 141, 131, 256, 245, 426, 406, 394, 384, 735, 359, 710,
        352, 11, 139, 129, 67, 125, 247, 233, 229, 219, 393, 743, 737, 720, 885, 882, 439, 4, 243,
        120, 118, 115, 227, 223, 396, 746, 742, 736, 721, 712, 706, 223, 436, 6, 202, 224, 222,
        218, 216, 389, 386, 381, 364, 888, 443, 707, 440, 437, 1728, 4, 747, 211, 210, 208, 370,
        379, 734, 723, 714, 1735, 883, 877, 876, 3459, 865, 2, 377, 369, 102, 187, 726, 722, 358,
        711, 709, 866, 1734, 871, 3458, 870, 434, 0, 12, 10, 7, 11, 10, 17, 11, 9, 13, 12, 10, 7,
        5, 3, 1, 3
    ];
    let lens = vec![
        1u32, 4, 6, 8, 9, 9, 10, 10, 11, 11, 11, 12, 12, 12, 13, 9, 3, 4, 6, 7, 8, 9, 9, 9, 10, 10,
        10, 11, 12, 11, 12, 8, 6, 6, 7, 8, 9, 9, 10, 10, 11, 10, 11, 11, 11, 12, 12, 9, 8, 7, 8, 9,
        9, 10, 10, 10, 11, 11, 12, 12, 12, 13, 13, 10, 9, 8, 9, 9, 10, 10, 11, 11, 11, 12, 12, 12,
        13, 13, 13, 9, 9, 8, 9, 9, 10, 11, 11, 12, 11, 12, 12, 13, 13, 13, 14, 10, 10, 9, 9, 10,
        11, 11, 11, 11, 12, 12, 12, 12, 13, 13, 14, 10, 10, 9, 10, 10, 11, 11, 11, 12, 12, 13, 13,
        13, 13, 15, 15, 10, 10, 10, 10, 11, 11, 11, 12, 12, 13, 13, 13, 13, 14, 14, 14, 10, 11, 10,
        10, 11, 11, 12, 12, 13, 13, 13, 13, 14, 13, 14, 13, 11, 11, 11, 10, 11, 12, 12, 12, 12, 13,
        14, 14, 14, 15, 15, 14, 10, 12, 11, 11, 11, 12, 12, 13, 14, 14, 14, 14, 14, 14, 13, 14, 11,
        12, 12, 12, 12, 12, 13, 13, 13, 13, 15, 14, 14, 14, 14, 16, 11, 14, 12, 12, 12, 13, 13, 14,
        14, 14, 16, 15, 15, 15, 17, 15, 11, 13, 13, 11, 12, 14, 14, 13, 14, 14, 15, 16, 15, 17, 15,
        14, 11, 9, 8, 8, 9, 9, 10, 10, 10, 11, 11, 11, 11, 11, 11, 11, 8
    ];
    assert(codes@ =~= codes_t16());
    assert(lens@ =~= lens_t16());
    (codes, lens)
}

pub open spec fn codes_t24() -> Seq<u32> {
    seq![
        15u32, 13, 46, 80, 146, 262, 248, 434, 426, 669, 653, 649, 621, 517, 1032, 88, 14, 12, 21,
        38, 71, 130, 122, 216, 209, 198, 327, 345, 319, 297, 279, 42, 47, 22, 41, 74, 68, 128, 120,
        221, 207, 194, 182, 340, 315, 295, 541, 18, 81, 39, 75, 70, 134, 125, 116, 220, 204, 190,
        178, 325, 311, 293, 271, 16, 147, 72, 69, 135, 127, 118, 112, 210, 200, 188, 352, 323, 306,
        285, 540, 14, 263, 66, 129, 126, 119, 114, 214, 202, 192, 180, 341, 317, 301, 281, 262, 12,
        249, 123, 121, 117, 113, 215, 206, 195, 185, 347, 330, 308, 291, 272, 520, 10, 435, 115,
        111, 109, 211, 203, 196, 187, 353, 332, 313, 298, 283, 531, 381, 17, 427, 212, 208, 205,
        201, 193, 186, 177, 169, 320, 303, 286, 268, 514, 377, 16, 335, 199, 197, 191, 189, 181,
        174, 333, 321, 305, 289, 275, 521, 379, 371, 11, 668, 184, 183, 179, 175, 344, 331, 314,
        304, 290, 277, 530, 383, 373, 366, 10, 652, 346, 171, 168, 164, 318, 309, 299, 287, 276,
        263, 513, 375, 368, 362, 6, 648, 322, 316, 312, 307, 302, 292, 284, 269, 261, 512, 376,
        370, 364, 359, 4, 620, 300, 296, 294, 288, 282, 273, 266, 515, 380, 374, 369, 365, 361,
        357, 2, 1033, 280, 278, 274, 267, 264, 259, 382, 378, 372, 367, 363, 360, 358, 356, 0, 43,
        20, 19, 17, 15, 13, 11, 9, 7, 6, 4, 7, 5, 3, 1, 3
    ]
}

pub open spec fn lens_t24() -> Seq<u32> {
    seq![
        4u32, 4, 6, 7, 8, 9, 9, 10, 10, 11, 11, 11, 11, 11, 12, 9, 4, 4, 5, 6, 7, 8, 8, 9, 9, 9,
        10, 10, 10, 10, 10, 8, 6, 5, 6, 7, 7, 8, 8, 9, 9, 9, 9, 10, 10, 10, 11, 7, 7, 6, 7, 7, 8,
        8, 8, 9, 9, 9, 9, 10, 10, 10, 10, 7, 8, 7, 7, 8, 8, 8, 8, 9, 9, 9, 10, 10, 10, 10, 11, 7,
        9, 7, 8, 8, 8, 8, 9, 9, 9, 9, 10, 10, 10, 10, 10, 7, 9, 8, 8, 8, 8, 9, 9, 9, 9, 10, 10, 10,
        10, 10, 11, 7, 10, 8, 8, 8, 9, 9, 9, 9, 10, 10, 10, 10, 10, 11, 11, 8, 10, 9, 9, 9, 9, 9,
        9, 9, 9, 10, 10, 10, 10, 11, 11, 8, 10, 9, 9, 9, 9, 9, 9, 10, 10, 10, 10, 10, 11, 11, 11,
        8, 11, 9, 9, 9, 9, 10, 10, 10, 10, 10, 10, 11, 11, 11, 11, 8, 11, 10, 9, 9, 9, 10, 10, 10,
        10, 10, 10, 11, 11, 11, 11, 8, 11, 10, 10, 10, 10, 10, 10, 10, 10, 10, 11, 11, 11, 11, 11,
        8, 11, 10, 10, 10, 10, 10, 10, 10, 11, 11, 11, 11, 11, 11, 11, 8, 12, 10, 10, 10, 10, 10,
        10, 11, 11, 11, 11, 11, 11, 11, 11, 8, 8, 7, 7, 7, 7, 7, 7, 7, 7, 7, 7, 8, 8, 8, 8, 4
    ]
}

fn data_t24() -> (r: (Vec<u32>, Vec<u32>))
    ensures
        r.0@ == codes_t24(),
        r.1@ == lens_t24(),
{
    let codes = vec![
        15u32, 13, 46, 80, 146, 262, 248, 434, 426, 669, 653, 649, 621, 517, 1032, 88, 14, 12, 21,
        38, 71, 130, 122, 216, 209, 198, 327, 345, 319, 297, 279, 42, 47, 22, 41, 74, 68, 128, 120,
        221, 207, 194, 182, 340, 315, 295, 541, 18, 81, 39, 75, 70, 134, 125, 116, 220, 204, 190,
        178, 325, 311, 293, 271, 16, 147, 72, 69, 135, 127, 118, 112, 210, 200, 188, 352, 323, 306,
        285, 540, 14, 263, 66, 129, 126, 119, 114, 214, 202, 192, 180, 341, 317, 301, 281, 262, 12,
        249, 123, 121, 117, 113, 215, 206, 195, 185, 347, 330, 308, 291, 272, 520, 10, 435, 115,
        111, 109, 211, 203, 196, 187, 353, 332, 313, 298, 283, 531, 381, 17, 427, 212, 208, 205,
        201, 193, 186, 177, 169, 320, 303, 286, 268, 514, 377, 16, 335, 199, 197, 191, 189, 181,
        174, 333, 321, 305, 289, 275, 521, 379, 371, 11, 668, 184, 183, 179, 175, 344, 331, 314,
        304, 290, 277, 530, 383, 373, 366, 10, 652, 346, 171, 168, 164, 318, 309, 299, 287, 276,
        263, 513, 375, 368, 362, 6, 648, 322, 316, 312, 307, 302, 292, 284, 269, 261, 512, 376,
        370, 364, 359, 4, 620, 300, 296, 294, 288, 282, 273, 266, 515, 380, 374, 369, 365, 361,
        357, 2, 1033, 280, 278, 274, 267, 264, 259, 382, 378, 372, 367, 363, 360, 358, 356, 0, 43,
        20, 19, 17, 15, 13, 11, 9, 7, 6, 4, 7, 5, 3, 1, 3
    ];
    let lens = vec![
        4u32, 4, 6, 7, 8, 9, 9, 10, 10, 11, 11, 11, 11, 11, 12, 9, 4, 4, 5, 6, 7, 8, 8, 9, 9, 9,
        10, 10, 10, 10, 10, 8, 6, 5, 6, 7, 7, 8, 8, 9, 9, 9, 9, 10, 10, 10, 11, 7, 7, 6, 7, 7, 8,
        8, 8, 9, 9, 9, 9, 10, 10, 10, 10, 7, 8, 7, 7, 8, 8, 8, 8, 9, 9, 9, 10, 10, 10, 10, 11, 7,
        9, 7, 8, 8, 8, 8, 9, 9, 9, 9, 10, 10, 10, 10, 10, 7, 9, 8, 8, 8, 8, 9, 9, 9, 9, 10, 10, 10,
        10, 10, 11, 7, 10, 8, 8, 8, 9, 9, 9, 9, 10, 10, 10, 10, 10, 11, 11, 8, 10, 9, 9, 9, 9, 9,
        9, 9, 9, 10, 10, 10, 10, 11, 11, 8, 10, 9, 9, 9, 9, 9, 9, 10, 10, 10, 10, 10, 11, 11, 11,
        8, 11, 9, 9, 9, 9, 10, 10, 10, 10, 10, 10, 11, 11, 11, 11, 8, 11, 10, 9, 9, 9, 10, 10, 10,
        10, 10, 10, 11, 11, 11, 11, 8, 11, 10, 10, 10, 10, 10, 10, 10, 10, 10, 11, 11, 11, 11, 11,
        8, 11, 10, 10, 10, 10, 10, 10, 10, 11, 11, 11, 11, 11, 11, 11, 8, 12, 10, 10, 10, 10, 10,
        10, 11, 11, 11, 11, 11, 11, 11, 11, 8, 8, 7, 7, 7, 7, 7, 7, 7, 7, 7, 7, 8, 8, 8, 8, 4
    ];
    assert(codes@ =~= codes_t24());
    assert(lens@ =~= lens_t24());
    (codes, lens)
}

/// The codes of big-value table `n`, row by row.
pub open spec fn table_codes(n: u32) -> Seq<u32> {
    let t = source_table(n);
    if t == 1 {
        codes_t1()
    } else if t == 2 {
        codes_t2()
    } else if t == 3 {
        codes_t3()
    } else if t == 5 {
        codes_t5()
    } else if t == 6 {
        codes_t6()
    } else if t == 7 {
        codes_t7()
    } else if t == 8 {
        codes_t8()
    } else if t == 9 {
        codes_t9()
    } else if t == 10 {
        codes_t10()
    } else if t == 11 {
        codes_t11()
    } else if t == 12 {
        codes_t12()
    } else if t == 13 {
        codes_t13()
    } else if t == 15 {
        codes_t15()
    } else if t == 16 {
        codes_t16()
    } else if t == 24 {
        codes_t24()
    } else {
        seq![]
    }
}

/// The code lengths of big-value table `n`, row by row.
pub open spec fn table_lens(n: u32) -> Seq<u32> {
    let t = source_table(n);
    if t == 1 {
        lens_t1()
    } else if t == 2 {
        lens_t2()
    } else if t == 3 {
        lens_t3()
    } else if t == 5 {
        lens_t5()
    } else if t == 6 {
        lens_t6()
    } else if t == 7 {
        lens_t7()
    } else if t == 8 {
        lens_t8()
    } else if t == 9 {
        lens_t9()
    } else if t == 10 {
        lens_t10()
    } else if t == 11 {
        lens_t11()
    } else if t == 12 {
        lens_t12()
    } else if t == 13 {
        lens_t13()
    } else if t == 15 {
        lens_t15()
    } else if t == 16 {
        lens_t16()
    } else if t == 24 {
        lens_t24()
    } else {
        seq![]
    }
}

pub open spec fn table_model(n: u32) -> HuffModel {
    HuffModel {
        codes: table_codes(n),
        lens: table_lens(n),
        dim: table_dim(n),
        linbits: table_linbits(n),
    }
}

pub open spec fn quad_model(select: u32) -> HuffModel {
    HuffModel { codes: quad_codes(select), lens: quad_lens(select), dim: 16, linbits: 0 }
}

fn table_data(t: u32) -> (r: (Vec<u32>, Vec<u32>))
    ensures
        ({
            let n = t;
            r.0@ == (if t == 1 {
                    codes_t1()
                } else if t == 2 {
                    codes_t2()
                } else if t == 3 {
                    codes_t3()
                } else if t == 5 {
                    codes_t5()
                } else if t == 6 {
                    codes_t6()
                } else if t == 7 {
                    codes_t7()
                } else if t == 8 {
                    codes_t8()
                } else if t == 9 {
                    codes_t9()
                } else if t == 10 {
                    codes_t10()
                } else if t == 11 {
                    codes_t11()
                } else if t == 12 {
                    codes_t12()
                } else if t == 13 {
                    codes_t13()
                } else if t == 15 {
                    codes_t15()
                } else if t == 16 {
                    codes_t16()
                } else if t == 24 {
                    codes_t24()
                } else {
                    seq![]
                })
            && r.1@ == (if t == 1 {
                    lens_t1()
                } else if t == 2 {
                    lens_t2()
                } else if t == 3 {
                    lens_t3()
                } else if t == 5 {
                    lens_t5()
                } else if t == 6 {
                    lens_t6()
                } else if t == 7 {
                    lens_t7()
                } else if t == 8 {
                    lens_t8()
                } else if t == 9 {
                    lens_t9()
                } else if t == 10 {
                    lens_t10()
                } else if t == 11 {
                    lens_t11()
                } else if t == 12 {
                    lens_t12()
                } else if t == 13 {
                    lens_t13()
                } else if t == 15 {
                    lens_t15()
                } else if t == 16 {
                    lens_t16()
                } else if t == 24 {
                    lens_t24()
                } else {
                    seq![]
                })
        }),
{
    if t == 1 {
        data_t1()
    } else if t == 2 {
        data_t2()
    } else if t == 3 {
        data_t3()
    } else if t == 5 {
        data_t5()
    } else if t == 6 {
        data_t6()
    } else if t == 7 {
        data_t7()
    } else if t == 8 {
        data_t8()
    } else if t == 9 {
        data_t9()
    } else if t == 10 {
        data_t10()
    } else if t == 11 {
        data_t11()
    } else if t == 12 {
        data_t12()
    } else if t == 13 {
        data_t13()
    } else if t == 15 {
        data_t15()
    } else if t == 16 {
        data_t16()
    } else if t == 24 {
        data_t24()
    } else {
        (Vec::new(), Vec::new())
    }
}

/// Big-value table `n` (0..32).
pub fn big_value_table(n: u32) -> (r: HuffTable)
    requires
        n < 32,
    ensures
        r.wf(),
        r@ == table_model(n),
{
    let dim: u32 = if n == 1 { 2 } else if n == 2 || n == 3 { 3 } else if n == 5 || n == 6 { 4 }
        else if 7 <= n && n <= 9 { 6 } else if 10 <= n && n <= 12 { 8 }
        else if n == 13 || (15 <= n && n <= 31) { 16 } else { 0 };
    let lin: [u32; 16] = [1, 2, 3, 4, 6, 8, 10, 13, 4, 5, 6, 7, 8, 9, 11, 13];
    let linbits: u32 = if n < 16 { 0 } else { lin[(n - 16) as usize] };
    proof {
        assert(lin@ =~= seq![1u32, 2, 3, 4, 6, 8, 10, 13, 4, 5, 6, 7, 8, 9, 11, 13]);
    }
    let t: u32 = if 16 <= n && n <= 23 { 16 } else if 24 <= n && n <= 31 { 24 } else { n };
    let (codes, lens) = table_data(t);
    proof {
        if n >= 16 {
            assert(linbits <= 13);
        }
        if n == 1 {
            assert(dim * dim == 4);
        } else if n == 2 || n == 3 {
            assert(dim * dim == 9);
        } else if n == 5 || n == 6 {
            assert(dim * dim == 16);
        } else if 7 <= n <= 9 {
            assert(dim * dim == 36);
        } else if 10 <= n <= 12 {
            assert(dim * dim == 64);
        } else if n == 13 || 15 <= n {
            assert(dim * dim == 256);
        } else {
            assert(lens@.len() == 0);
            assert(0 <= dim * dim) by (nonlinear_arith);
        }
    }
    HuffTable { codes, lens, dim, linbits }
}

/// The count1 table: table A when `select` is 0, table B otherwise.
pub open spec fn quad_codes(select: u32) -> Seq<u32> {
    if select == 0 {
        seq![1u32, 5, 4, 5, 6, 5, 4, 4, 7, 3, 6, 0, 7, 2, 3, 1]
    } else {
        seq![15u32, 14, 13, 12, 11, 10, 9, 8, 7, 6, 5, 4, 3, 2, 1, 0]
    }
}

pub open spec fn quad_lens(select: u32) -> Seq<u32> {
    if select == 0 {
        seq![1u32, 4, 4, 5, 4, 6, 5, 6, 4, 5, 5, 6, 5, 6, 6, 6]
    } else {
        seq![4u32, 4, 4, 4, 4, 4, 4, 4, 4, 4, 4, 4, 4, 4, 4, 4]
    }
}

pub fn count1_table(select: u32) -> (r: HuffTable)
    ensures
        r.wf(),
        r.dim == 16,
        r.lens@.len() == 16,
        r@ == quad_model(select),
{
    let (codes, lens) = if select == 0 {
        (
            vec![1u32, 5, 4, 5, 6, 5, 4, 4, 7, 3, 6, 0, 7, 2, 3, 1],
            vec![1u32, 4, 4, 5, 4, 6, 5, 6, 4, 5, 5, 6, 5, 6, 6, 6],
        )
    } else {
        (
            vec![15u32, 14, 13, 12, 11, 10, 9, 8, 7, 6, 5, 4, 3, 2, 1, 0],
            vec![4u32, 4, 4, 4, 4, 4, 4, 4, 4, 4, 4, 4, 4, 4, 4, 4],
        )
    };
    proof {
        assert(codes@ =~= quad_codes(select));
        assert(lens@ =~= quad_lens(select));
        assert(16u32 * 16u32 == 256);
    }
    HuffTable { codes, lens, dim: 16, linbits: 0 }
}

} // verus!
