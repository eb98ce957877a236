use crate::bits::{bit_at, bits_value, get_bits};
use vstd::prelude::*;

verus! {

/// A Huffman code table: entry `j` has the code `codes[j]` of `lens[j]` bits.
/// For a big-value table entry `j` stands for the pair `(j / dim, j % dim)`;
/// for a count1 table (`dim == 16`, read as a quad) for the four bits of `j`.
/// A table with `dim == 0` codes only zeros and takes no bits.
pub struct HuffTable {
    pub codes: Vec<u32>,
    pub lens: Vec<u32>,
    pub dim: u32,
    pub linbits: u32,
}

/// The contents of a `HuffTable`.
pub struct HuffModel {
    pub codes: Seq<u32>,
    pub lens: Seq<u32>,
    pub dim: u32,
    pub linbits: u32,
}

impl View for HuffTable {
    type V = HuffModel;

    open spec fn view(&self) -> HuffModel {
        HuffModel { codes: self.codes@, lens: self.lens@, dim: self.dim, linbits: self.linbits }
    }
}

impl HuffTable {
    pub open spec fn wf(&self) -> bool {
        &&& self.codes@.len() == self.lens@.len()
        &&& self.codes@.len() <= 256
        &&& self.dim <= 16
        &&& self.linbits <= 13
        &&& self.lens@.len() <= self.dim * self.dim
    }
}

/// The first entry at or after `j` whose code the bits at `bit` start with, or
/// -1; entries whose length is not 1 to 32 bits never match.
pub open spec fn match_from(buf: Seq<u8>, bit: int, t: HuffModel, j: int) -> int
    decreases t.lens.len() - j,
{
    if j < 0 || j >= t.lens.len() {
        -1
    } else if 1 <= t.lens[j] <= 32 && bits_value(buf, bit, bit + t.lens[j]) == t.codes[j] {
        j
    } else {
        match_from(buf, bit, t, j + 1)
    }
}

/// One value of a big-value pair, decoded as `v` at `p`: the escape bits
/// when `v` is the table's largest and the table has any, then a sign bit
/// when the value is not zero. Gives the signed value and where it ends.
pub open spec fn value_tail(buf: Seq<u8>, p: int, v: int, t: HuffModel) -> (int, int) {
    let (mag, q) = if t.linbits > 0 && v == t.dim - 1 {
        (v + bits_value(buf, p, p + t.linbits), p + t.linbits)
    } else {
        (v, p)
    };
    if mag == 0 {
        (0, q)
    } else if bit_at(buf, q) == 1 {
        (-mag, q + 1)
    } else {
        (mag, q + 1)
    }
}

/// The pair coded at `bit`, and where it ends; `None` when no code matches.
pub open spec fn pair_at(buf: Seq<u8>, bit: int, t: HuffModel) -> Option<(int, int, int)> {
    if t.dim == 0 {
        Some((0, 0, bit))
    } else {
        let j = match_from(buf, bit, t, 0);
        if j < 0 {
            None
        } else {
            let (x, p1) = value_tail(buf, bit + t.lens[j], j / t.dim as int, t);
            let (y, p2) = value_tail(buf, p1, j % t.dim as int, t);
            Some((x, y, p2))
        }
    }
}

/// The signed values of a quad whose bits are those of `j`, from bit `k` on,
/// with their sign bits at `p`, and where they end.
pub open spec fn quad_tail(buf: Seq<u8>, p: int, j: int, k: int) -> (Seq<int>, int)
    decreases 4 - k,
{
    if k >= 4 || k < 0 {
        (seq![], p)
    } else {
        let m = (j / pow2_small(3 - k)) % 2;
        if m == 0 {
            let (rest, e) = quad_tail(buf, p, j, k + 1);
            (seq![0int] + rest, e)
        } else {
            let v: int = if bit_at(buf, p) == 1 { -1 } else { 1 };
            let (rest, e) = quad_tail(buf, p + 1, j, k + 1);
            (seq![v] + rest, e)
        }
    }
}

pub open spec fn pow2_small(e: int) -> int {
    if e == 3 { 8 } else if e == 2 { 4 } else if e == 1 { 2 } else { 1 }
}

/// The quad coded at `bit`, and where it ends; `None` when no code matches.
pub open spec fn quad_at(buf: Seq<u8>, bit: int, q: HuffModel) -> Option<(Seq<int>, int)> {
    let j = match_from(buf, bit, q, 0);
    if j < 0 {
        None
    } else {
        Some(quad_tail(buf, bit + q.lens[j], j, 0))
    }
}

/// Which of the three big-value tables codes line `s`.
pub open spec fn region_of(s: int, region0: int, region1: int) -> int {
    if s < region0 { 0 } else if s < region1 { 1 } else { 2 }
}

/// The big-value lines from line `s` up to `end`, decoded from `bit`: the
/// values, where they end, and whether the zone was decoded whole. Decoding
/// stops at a bit string that no code matches, or at a pair that ends past
/// `max_bit`, which is dropped.
pub open spec fn big_zone(
    buf: Seq<u8>,
    bit: int,
    s: int,
    end: int,
    max_bit: int,
    t0: HuffModel,
    t1: HuffModel,
    t2: HuffModel,
    region0: int,
    region1: int,
) -> (Seq<int>, int, bool)
    decreases end - s,
{
    if s + 2 > end {
        (seq![], bit, true)
    } else {
        let r = region_of(s, region0, region1);
        let t = if r == 0 { t0 } else if r == 1 { t1 } else { t2 };
        match pair_at(buf, bit, t) {
            None => (seq![], bit, false),
            Some((x, y, next)) => if next > max_bit {
                (seq![], bit, false)
            } else {
                let (rest, e, ok) = big_zone(buf, next, s + 2, end, max_bit, t0, t1, t2, region0, region1);
                (seq![x, y] + rest, e, ok)
            },
        }
    }
}

/// The count1 lines from line `s` on, decoded from `bit`, while `bit` is
/// below `max_bit` and four more lines fit in the granule. A quad that no
/// code matches, or that ends past `max_bit`, ends the zone and is dropped.
pub open spec fn quad_zone(buf: Seq<u8>, bit: int, s: int, max_bit: int, q: HuffModel) -> Seq<int>
    decreases 576 - s,
{
    if bit >= max_bit || s + 4 > 576 {
        seq![]
    } else {
        match quad_at(buf, bit, q) {
            None => seq![],
            Some((vals, next)) => if next > max_bit {
                seq![]
            } else {
                vals + quad_zone(buf, next, s + 4, max_bit, q)
            },
        }
    }
}

/// `v` followed by zeros up to 576 lines.
pub open spec fn pad_576(v: Seq<int>) -> Seq<int> {
    v + Seq::new((576 - v.len()) as nat, |i: int| 0int)
}

/// The 576 lines of one granule of one channel.
pub open spec fn granule_lines(
    buf: Seq<u8>,
    bit: int,
    max_bit: int,
    big_lines: int,
    t0: HuffModel,
    t1: HuffModel,
    t2: HuffModel,
    region0: int,
    region1: int,
    q: HuffModel,
) -> Seq<int> {
    let (big, e, ok) = big_zone(buf, bit, 0, big_lines, max_bit, t0, t1, t2, region0, region1);
    if ok {
        pad_576(big + quad_zone(buf, e, big.len() as int, max_bit, q))
    } else {
        pad_576(big)
    }
}

proof fn lemma_match_len(buf: Seq<u8>, bit: int, t: HuffModel, j: int)
    requires
        j >= 0,
    ensures
        match_from(buf, bit, t, j) >= 0 ==> j <= match_from(buf, bit, t, j) < t.lens.len() && 1 <= t.lens[match_from(
            buf,
            bit,
            t,
            j,
        )],
    decreases t.lens.len() - j,
{
    if j < t.lens.len() && !(1 <= t.lens[j] <= 32 && bits_value(buf, bit, bit + t.lens[j]) == t.codes[j]) {
        lemma_match_len(buf, bit, t, j + 1);
    }
}

proof fn lemma_big_zone_no_bits(
    buf: Seq<u8>,
    bit: int,
    s: int,
    end: int,
    max_bit: int,
    t0: HuffModel,
    t1: HuffModel,
    t2: HuffModel,
    region0: int,
    region1: int,
)
    requires
        bit >= max_bit,
        s <= end,
    ensures
        ({
            let (v, e, ok) = big_zone(buf, bit, s, end, max_bit, t0, t1, t2, region0, region1);
            &&& e == bit
            &&& v.len() <= end - s
            &&& forall|i: int| 0 <= i < v.len() ==> v[i] == 0
        }),
    decreases end - s,
{
    if s + 2 <= end {
        let r = region_of(s, region0, region1);
        let t = if r == 0 { t0 } else if r == 1 { t1 } else { t2 };
        if t.dim == 0 {
            lemma_big_zone_no_bits(buf, bit, s + 2, end, max_bit, t0, t1, t2, region0, region1);
            let (rest, e, ok) = big_zone(buf, bit, s + 2, end, max_bit, t0, t1, t2, region0, region1);
            let v = seq![0int, 0int] + rest;
            assert forall|i: int| 0 <= i < v.len() implies v[i] == 0 by {
                if i >= 2 {
                    assert(v[i] == rest[i - 2]);
                }
            }
        } else {
            let j = match_from(buf, bit, t, 0);
            lemma_match_len(buf, bit, t, 0);
            if j >= 0 {
                let (x, p1) = value_tail(buf, bit + t.lens[j], j / t.dim as int, t);
                let (y, p2) = value_tail(buf, p1, j % t.dim as int, t);
                assert(p1 >= bit + t.lens[j]);
                assert(p2 >= p1);
            }
        }
    }
}

/// A granule whose part 3 has no bits left after its scalefactors decodes
/// to 576 zero lines, whatever tables it selects.
pub proof fn lemma_no_bits_no_lines(
    buf: Seq<u8>,
    bit: int,
    max_bit: int,
    big_lines: int,
    t0: HuffModel,
    t1: HuffModel,
    t2: HuffModel,
    region0: int,
    region1: int,
    q: HuffModel,
)
    requires
        bit >= max_bit,
        0 <= big_lines <= 576,
    ensures
        granule_lines(buf, bit, max_bit, big_lines, t0, t1, t2, region0, region1, q).len() == 576,
        forall|i: int|
            0 <= i < 576 ==> #[trigger] granule_lines(buf, bit, max_bit, big_lines, t0, t1, t2, region0, region1, q)[i]
                == 0,
{
    lemma_big_zone_no_bits(buf, bit, 0, big_lines, max_bit, t0, t1, t2, region0, region1);
    let (big, e, ok) = big_zone(buf, bit, 0, big_lines, max_bit, t0, t1, t2, region0, region1);
    let d = if ok { big + quad_zone(buf, e, big.len() as int, max_bit, q) } else { big };
    assert(quad_zone(buf, e, big.len() as int, max_bit, q) =~= Seq::<int>::empty());
    assert(d =~= big);
    let lines = pad_576(d);
    assert forall|i: int| 0 <= i < 576 implies lines[i] == 0 by {
        if i >= d.len() {
            assert(lines[i] == 0);
        }
    }
}

pub open spec fn ints(v: Seq<i32>) -> Seq<int> {
    Seq::new(v.len(), |i: int| v[i] as int)
}

proof fn lemma_field_bound(buf: Seq<u8>, p: int, n: int)
    requires
        0 <= n <= 13,
    ensures
        bits_value(buf, p, p + n) < 0x2000,
{
    crate::bits::lemma_bits_value_bound(buf, p, p + n);
    vstd::arithmetic::power2::lemma2_to64();
    if n < 13 {
        vstd::arithmetic::power2::lemma_pow2_strictly_increases(n as nat, 13);
    }
}

proof fn lemma_one_bit(buf: Seq<u8>, p: int)
    ensures
        bits_value(buf, p, p + 1) == bit_at(buf, p),
{
    reveal_with_fuel(bits_value, 2);
}

/// The first entry of `t` whose code the bits at `bit` start with, or -1.
fn find_code(buf: &[u8], bit: usize, t: &HuffTable) -> (r: i64)
    requires
        t.wf(),
        bit + 32 <= usize::MAX,
    ensures
        r == match_from(buf@, bit as int, t@, 0),
        -1 <= r < t.lens@.len(),
        r >= 0 ==> 1 <= t.lens@[r as int] <= 32,
{
    let mut j: usize = 0;
    while j < t.lens.len()
        invariant
            t.wf(),
            bit + 32 <= usize::MAX,
            j <= t.lens@.len(),
            match_from(buf@, bit as int, t@, 0) == match_from(buf@, bit as int, t@, j as int),
        decreases t.lens@.len() - j,
    {
        let len = t.lens[j];
        if 1 <= len && len <= 32 && get_bits(buf, bit, bit + len as usize) == t.codes[j] {
            return j as i64;
        }
        j = j + 1;
    }
    -1
}

fn decode_value(buf: &[u8], p: usize, v: u32, t: &HuffTable) -> (r: (i32, usize))
    requires
        t.wf(),
        v < 16,
        p + 20 <= usize::MAX,
    ensures
        (r.0 as int, r.1 as int) == value_tail(buf@, p as int, v as int, t@),
        p <= r.1 <= p + 14,
{
    let mut q = p;
    let mut mag = v;
    if t.linbits > 0 && v + 1 == t.dim {
        proof {
            lemma_field_bound(buf@, p as int, t.linbits as int);
        }
        mag = v + get_bits(buf, q, q + t.linbits as usize);
        q = q + t.linbits as usize;
    }
    if mag == 0 {
        (0, q)
    } else {
        proof {
            lemma_one_bit(buf@, q as int);
        }
        if get_bits(buf, q, q + 1) == 1 {
            (-(mag as i32), q + 1)
        } else {
            (mag as i32, q + 1)
        }
    }
}

/// Decodes the pair coded at `bit` with `t`.
fn decode_pair(buf: &[u8], bit: usize, t: &HuffTable) -> (r: Option<(i32, i32, usize)>)
    requires
        t.wf(),
        bit + 100 <= usize::MAX,
    ensures
        match pair_at(buf@, bit as int, t@) {
            None => r is None,
            Some((x, y, e)) => r is Some && r.unwrap().0 as int == x && r.unwrap().1 as int == y
                && r.unwrap().2 as int == e && bit <= e <= bit + 60,
        },
{
    if t.dim == 0 {
        return Some((0, 0, bit));
    }
    let j = find_code(buf, bit, t);
    if j < 0 {
        return None;
    }
    let j = j as usize;
    let dim = t.dim as usize;
    proof {
        assert(j / dim < dim && j % dim < dim) by (nonlinear_arith)
            requires
                j < dim * dim,
                dim > 0,
        ;
    }
    let p = bit + t.lens[j] as usize;
    let (x, p1) = decode_value(buf, p, (j / dim) as u32, t);
    let (y, p2) = decode_value(buf, p1, (j % dim) as u32, t);
    Some((x, y, p2))
}

/// Decodes the quad coded at `bit` with the count1 table `q`.
fn decode_quad(buf: &[u8], bit: usize, q: &HuffTable) -> (r: Option<(Vec<i32>, usize)>)
    requires
        q.wf(),
        q.dim == 16,
        q.lens@.len() <= 16,
        bit + 100 <= usize::MAX,
    ensures
        match quad_at(buf@, bit as int, q@) {
            None => r is None,
            Some((vals, e)) => r is Some && ints(r.unwrap().0@) == vals && r.unwrap().1 as int == e
                && bit <= e <= bit + 36,
        },
        r is Some ==> r.unwrap().0@.len() == 4,
{
    let j = find_code(buf, bit, q);
    if j < 0 {
        return None;
    }
    let j = j as usize;
    let mut p = bit + q.lens[j] as usize;
    let mut vals: Vec<i32> = Vec::new();
    let mut k: usize = 0;
    let ghost start = p;
    while k < 4
        invariant
            k <= 4,
            j < 16,
            start <= p <= start + k,
            start == bit + q.lens@[j as int],
            start <= bit + 32,
            bit + 100 <= usize::MAX,
            vals@.len() == k,
            ints(vals@) + quad_tail(buf@, p as int, j as int, k as int).0 == quad_tail(
                buf@,
                start as int,
                j as int,
                0,
            ).0,
            quad_tail(buf@, p as int, j as int, k as int).1 == quad_tail(
                buf@,
                start as int,
                j as int,
                0,
            ).1,
        decreases 4 - k,
    {
        let shift: usize = 3 - k;
        let div: usize = if shift == 3 { 8 } else if shift == 2 { 4 } else if shift == 1 { 2 } else { 1 };
        let ghost old_vals = vals@;
        let ghost old_p = p;
        if (j / div) % 2 == 0 {
            vals.push(0);
        } else {
            proof {
                lemma_one_bit(buf@, p as int);
            }
            if get_bits(buf, p, p + 1) == 1 {
                vals.push(-1);
            } else {
                vals.push(1);
            }
            p = p + 1;
        }
        proof {
            let (rest, e) = quad_tail(buf@, p as int, j as int, k + 1);
            assert(quad_tail(buf@, old_p as int, j as int, k as int).0 =~= seq![vals@[k as int] as int]
                + rest);
            assert(ints(vals@) =~= ints(old_vals).push(vals@[k as int] as int));
            assert(ints(vals@) + rest =~= ints(old_vals) + (seq![vals@[k as int] as int] + rest));
        }
        k = k + 1;
    }
    proof {
        assert(quad_tail(buf@, p as int, j as int, 4).0 =~= Seq::<int>::empty());
        assert(quad_tail(buf@, p as int, j as int, 4).1 == p);
        assert(ints(vals@) + Seq::<int>::empty() =~= ints(vals@));
        assert(ints(vals@) == quad_tail(buf@, start as int, j as int, 0).0);
    }
    Some((vals, p))
}

/// Decodes the 576 quantized lines of one granule of one channel from the
/// main data bits `bit..max_bit`: `big_lines` big-value lines coded in pairs
/// with `t0`, `t1` or `t2` as the line falls before `region0`, before
/// `region1` or after, then count1 quads coded with `q`, then zeros.
pub fn unpack_samples(
    buf: &[u8],
    bit: usize,
    max_bit: usize,
    big_lines: usize,
    t0: &HuffTable,
    t1: &HuffTable,
    t2: &HuffTable,
    region0: usize,
    region1: usize,
    q: &HuffTable,
) -> (r: Vec<i32>)
    requires
        t0.wf(),
        t1.wf(),
        t2.wf(),
        q.wf(),
        q.dim == 16,
        q.lens@.len() <= 16,
        bit <= usize::MAX - 200,
        max_bit <= usize::MAX - 200,
        big_lines <= 576,
    ensures
        ints(r@) == granule_lines(
            buf@,
            bit as int,
            max_bit as int,
            big_lines as int,
            t0@,
            t1@,
            t2@,
            region0 as int,
            region1 as int,
            q@,
        ),
        r@.len() == 576,
{
    let ghost big = big_zone(
        buf@,
        bit as int,
        0,
        big_lines as int,
        max_bit as int,
        t0@,
        t1@,
        t2@,
        region0 as int,
        region1 as int,
    );
    let mut out: Vec<i32> = Vec::new();
    let mut cur = bit;
    let mut s: usize = 0;
    let mut ok = true;
    while ok && s + 2 <= big_lines
        invariant
            big_lines <= 576,
            s <= big_lines,
            out@.len() == s,
            bit <= usize::MAX - 200,
            max_bit <= usize::MAX - 200,
            cur <= bit || cur <= max_bit,
            t0.wf(),
            t1.wf(),
            t2.wf(),
            big == big_zone(
                buf@,
                bit as int,
                0,
                big_lines as int,
                max_bit as int,
                t0@,
                t1@,
                t2@,
                region0 as int,
                region1 as int,
            ),
            ok ==> {
                let z = big_zone(
                    buf@,
                    cur as int,
                    s as int,
                    big_lines as int,
                    max_bit as int,
                    t0@,
                    t1@,
                    t2@,
                    region0 as int,
                    region1 as int,
                );
                ints(out@) + z.0 == big.0 && z.1 == big.1 && z.2 == big.2
            },
            !ok ==> ints(out@) == big.0 && big.1 == cur && !big.2,
        decreases big_lines - s + if ok { 1int } else { 0int },
    {
        let t = if s < region0 { t0 } else if s < region1 { t1 } else { t2 };
        let ghost z = big_zone(
            buf@,
            cur as int,
            s as int,
            big_lines as int,
            max_bit as int,
            t0@,
            t1@,
            t2@,
            region0 as int,
            region1 as int,
        );
        let ghost old_out = out@;
        match decode_pair(buf, cur, t) {
            None => {
                ok = false;
            },
            Some((x, y, next)) => {
                if next > max_bit {
                    ok = false;
                } else {
                    out.push(x);
                    out.push(y);
                    proof {
                        let z2 = big_zone(
                            buf@,
                            next as int,
                            s + 2,
                            big_lines as int,
                            max_bit as int,
                            t0@,
                            t1@,
                            t2@,
                            region0 as int,
                            region1 as int,
                        );
                        assert(z.0 =~= seq![x as int, y as int] + z2.0);
                        assert(ints(out@) =~= ints(old_out) + seq![x as int, y as int]);
                        assert(ints(out@) + z2.0 =~= ints(old_out) + z.0);
                    }
                    cur = next;
                    s = s + 2;
                }
            },
        }
        proof {
            if !ok {
                assert(z.0 =~= Seq::<int>::empty());
                assert(ints(old_out) + Seq::<int>::empty() =~= ints(old_out));
            }
        }
    }
    proof {
        if ok {
            let z = big_zone(
                buf@,
                cur as int,
                s as int,
                big_lines as int,
                max_bit as int,
                t0@,
                t1@,
                t2@,
                region0 as int,
                region1 as int,
            );
            assert(z.0 =~= Seq::<int>::empty());
            assert(ints(out@) + Seq::<int>::empty() =~= ints(out@));
        }
    }
    let ghost quads = quad_zone(buf@, big.1, big.0.len() as int, max_bit as int, q@);
    let ghost big_out = out@;
    if ok {
        let mut more = true;
        while more && cur < max_bit && s + 4 <= 576
            invariant
                s <= 576,
                out@.len() == s,
                big_out.len() <= s,
                out@.subrange(0, big_out.len() as int) == big_out,
                ints(big_out) == big.0,
                cur <= max_bit || (cur == big.1 && s == big_out.len()),
                bit <= usize::MAX - 200,
                max_bit <= usize::MAX - 200,
                cur <= bit || cur <= max_bit,
                q.wf(),
                q.dim == 16,
                q.lens@.len() <= 16,
                quads == quad_zone(buf@, big.1, big.0.len() as int, max_bit as int, q@),
                more ==> ints(out@.subrange(big_out.len() as int, s as int)) + quad_zone(
                    buf@,
                    cur as int,
                    s as int,
                    max_bit as int,
                    q@,
                ) == quads,
                !more ==> ints(out@.subrange(big_out.len() as int, s as int)) == quads,
            decreases 576 - s + if more { 1int } else { 0int },
        {
            let ghost old_out = out@;
            let ghost zq = quad_zone(buf@, cur as int, s as int, max_bit as int, q@);
            match decode_quad(buf, cur, q) {
                None => {
                    more = false;
                },
                Some((vals, next)) => {
                    if next > max_bit {
                        more = false;
                    } else {
                        let mut k: usize = 0;
                        while k < 4
                            invariant
                                k <= 4,
                                vals@.len() == 4,
                                s + 4 <= 576,
                                out@.len() == s + k,
                                out@.subrange(0, s as int) == old_out,
                                out@.subrange(s as int, s + k) == vals@.subrange(0, k as int),
                            decreases 4 - k,
                        {
                            out.push(vals[k]);
                            proof {
                                assert(out@.subrange(0, s as int) =~= old_out);
                                assert(out@.subrange(s as int, s + k + 1) =~= vals@.subrange(0, k + 1));
                            }
                            k = k + 1;
                        }
                        proof {
                            let zq2 = quad_zone(buf@, next as int, s + 4, max_bit as int, q@);
                            assert(zq =~= ints(vals@) + zq2);
                            assert(out@.subrange(s as int, s + 4) =~= vals@);
                            assert(out@.subrange(0, big_out.len() as int) =~= big_out);
                            assert(out@.subrange(big_out.len() as int, s + 4) =~= old_out.subrange(
                                big_out.len() as int,
                                s as int,
                            ) + vals@);
                            assert(ints(out@.subrange(big_out.len() as int, s + 4)) =~= ints(
                                old_out.subrange(big_out.len() as int, s as int),
                            ) + ints(vals@));
                        }
                        cur = next;
                        s = s + 4;
                    }
                },
            }
            proof {
                if !more {
                    assert(zq =~= Seq::<int>::empty());
                    let a = ints(old_out.subrange(big_out.len() as int, s as int));
                    assert(a + Seq::<int>::empty() =~= a);
                }
            }
        }
        proof {
            if more {
                let zq = quad_zone(buf@, cur as int, s as int, max_bit as int, q@);
                assert(zq =~= Seq::<int>::empty());
                let a = ints(out@.subrange(big_out.len() as int, s as int));
                assert(a + Seq::<int>::empty() =~= a);
            }
        }
    }
    let ghost decoded = out@;
    while s < 576
        invariant
            s <= 576,
            out@.len() == s,
            decoded.len() <= s,
            out@.subrange(0, decoded.len() as int) == decoded,
            forall|i: int| decoded.len() <= i < s ==> out@[i] == 0,
        decreases 576 - s,
    {
        out.push(0);
        proof {
            assert(out@.subrange(0, decoded.len() as int) =~= decoded);
        }
        s = s + 1;
    }
    proof {
        let lines = granule_lines(
            buf@,
            bit as int,
            max_bit as int,
            big_lines as int,
            t0@,
            t1@,
            t2@,
            region0 as int,
            region1 as int,
            q@,
        );
        let d = if ok { big.0 + quads } else { big.0 };
        if ok {
            assert(decoded =~= big_out + decoded.subrange(big_out.len() as int, decoded.len() as int));
            assert(ints(decoded) =~= ints(big_out) + ints(decoded.subrange(big_out.len() as int, decoded.len() as int)));
        } else {
            assert(ints(decoded) == big.0);
        }
        assert(ints(decoded) == d);
        assert(ints(out@) =~= pad_576(d));
    }
    out
}

} // verus!
