use crate::header::DecodeError;
use vstd::prelude::*;

verus! {

/// How many earlier frame bodies the reservoir keeps.
pub const NUM_PREV_FRAMES: usize = 9;

pub open spec fn sum(s: Seq<usize>) -> nat
    decreases s.len(),
{
    if s.len() == 0 {
        0
    } else {
        s[0] as nat + sum(s.skip(1))
    }
}

proof fn lemma_sum_push(s: Seq<usize>, x: usize)
    ensures
        sum(s.push(x)) == sum(s) + x,
    decreases s.len(),
{
    if s.len() > 0 {
        assert(s.push(x).skip(1) =~= s.skip(1).push(x));
        lemma_sum_push(s.skip(1), x);
        assert(s.push(x)[0] == s[0]);
    } else {
        assert(s.push(x).skip(1) =~= Seq::<usize>::empty());
        assert(sum(Seq::<usize>::empty()) == 0);
        assert(s.push(x)[0] == x);
        assert(s =~= Seq::<usize>::empty());
    }
}

/// The largest frame body that the reservoir takes.
pub const MAX_BODY: usize = 2048;

proof fn lemma_sum_bound(s: Seq<usize>)
    requires
        forall|i: int| 0 <= i < s.len() ==> #[trigger] s[i] <= MAX_BODY,
    ensures
        sum(s) <= MAX_BODY * s.len(),
    decreases s.len(),
{
    if s.len() > 0 {
        assert forall|i: int| 0 <= i < s.skip(1).len() implies #[trigger] s.skip(1)[i] <= MAX_BODY by {
            assert(s.skip(1)[i] == s[i + 1]);
        }
        lemma_sum_bound(s.skip(1));
    }
}

/// The kept bytes after `body` joins bytes `b` whose bodies have sizes `s`:
/// the oldest body leaves when nine are kept.
pub open spec fn pushed_bytes(b: Seq<u8>, s: Seq<usize>, body: Seq<u8>) -> Seq<u8> {
    if s.len() < NUM_PREV_FRAMES {
        b + body
    } else {
        (b + body).skip(s[0] as int)
    }
}

/// The kept body sizes after a body of `n` bytes joins sizes `s`.
pub open spec fn pushed_sizes(s: Seq<usize>, n: usize) -> Seq<usize> {
    if s.len() < NUM_PREV_FRAMES {
        s.push(n)
    } else {
        s.push(n).skip(1)
    }
}

/// Once a body has joined the reservoir, the last `n` kept bytes, for `n`
/// up to the body's length, are the last `n` bytes of that body: a next
/// frame whose `main_data_begin` is `n` starts its main data with them.
pub proof fn lemma_tail_is_last_body(b: Seq<u8>, s: Seq<usize>, body: Seq<u8>, n: int)
    requires
        sum(s) == b.len(),
        0 <= n <= body.len(),
    ensures
        ({
            let p = pushed_bytes(b, s, body);
            p.subrange(p.len() - n, p.len() as int) == body.subrange(body.len() - n, body.len() as int)
        }),
{
    let p = pushed_bytes(b, s, body);
    if s.len() >= NUM_PREV_FRAMES {
        assert(s[0] <= sum(s));
    }
    assert(p.subrange(p.len() - n, p.len() as int) =~= body.subrange(body.len() - n, body.len() as int));
}

/// The main-data bytes of recent frames, for the bit reservoir.
pub struct Reservoir {
    /// The bodies of up to nine earlier frames, oldest first, end to end.
    pub bytes: Vec<u8>,
    /// The size of each kept body, oldest first.
    pub sizes: Vec<usize>,
}

impl Reservoir {
    pub open spec fn wf(&self) -> bool {
        &&& self.sizes@.len() <= NUM_PREV_FRAMES
        &&& sum(self.sizes@) == self.bytes@.len()
        &&& forall|i: int| 0 <= i < self.sizes@.len() ==> #[trigger] self.sizes@[i] <= MAX_BODY
        &&& self.bytes@.len() <= MAX_BODY * NUM_PREV_FRAMES
    }

    /// An empty reservoir, as at the start of a stream or after a seek.
    pub fn new() -> (r: Reservoir)
        ensures
            r.wf(),
            r.bytes@.len() == 0,
            r.sizes@.len() == 0,
    {
        Reservoir { bytes: Vec::new(), sizes: Vec::new() }
    }

    /// Forgets every kept body.
    pub fn reset(&mut self)
        ensures
            final(self).wf(),
            final(self).bytes@.len() == 0,
            final(self).sizes@.len() == 0,
    {
        self.bytes = Vec::new();
        self.sizes = Vec::new();
    }

    /// The main data of a frame whose side information gives
    /// `main_data_begin` and whose own body is `body`: the last
    /// `main_data_begin` kept bytes, then `body`. Fails when fewer bytes are
    /// kept.
    pub fn main_data(&self, main_data_begin: usize, body: &[u8]) -> (r: Result<Vec<u8>, DecodeError>)
        requires
            self.wf(),
        ensures
            main_data_begin > self.bytes@.len() ==> r == Err::<Vec<u8>, DecodeError>(
                DecodeError::ReservoirUnderflow,
            ),
            main_data_begin <= self.bytes@.len() ==> r is Ok && r.unwrap()@ == self.bytes@.subrange(
                self.bytes@.len() - main_data_begin,
                self.bytes@.len() as int,
            ) + body@,
            main_data_begin == 0 ==> r is Ok && r.unwrap()@ == body@,
            r is Ok ==> r.unwrap()@.len() == main_data_begin + body@.len(),
    {
        let len = self.bytes.len();
        if main_data_begin > len {
            return Err(DecodeError::ReservoirUnderflow);
        }
        let mut out: Vec<u8> = Vec::new();
        let mut i: usize = len - main_data_begin;
        while i < len
            invariant
                len == self.bytes@.len(),
                main_data_begin <= len,
                len - main_data_begin <= i <= len,
                out@ == self.bytes@.subrange(len - main_data_begin, i as int),
            decreases len - i,
        {
            out.push(self.bytes[i]);
            proof {
                assert(out@ =~= self.bytes@.subrange(len - main_data_begin, i + 1));
            }
            i = i + 1;
        }
        let ghost prefix = out@;
        let mut j: usize = 0;
        while j < body.len()
            invariant
                j <= body@.len(),
                out@ == prefix + body@.subrange(0, j as int),
            decreases body@.len() - j,
        {
            out.push(body[j]);
            proof {
                assert(out@ =~= prefix + body@.subrange(0, j + 1));
            }
            j = j + 1;
        }
        proof {
            assert(body@.subrange(0, j as int) =~= body@);
        }
        Ok(out)
    }

    /// Keeps `body` as the newest body, dropping the oldest when nine are kept.
    pub fn push(&mut self, body: &[u8])
        requires
            old(self).wf(),
            body@.len() <= MAX_BODY,
        ensures
            final(self).wf(),
            old(self).sizes@.len() < NUM_PREV_FRAMES ==> final(self).bytes@ == old(self).bytes@ + body@
                && final(self).sizes@ == old(self).sizes@.push(body@.len() as usize),
            old(self).sizes@.len() == NUM_PREV_FRAMES ==> final(self).bytes@ == (old(self).bytes@
                + body@).skip(old(self).sizes@[0] as int) && final(self).sizes@ == old(
                self,
            ).sizes@.push(body@.len() as usize).skip(1),
            final(self).bytes@ == pushed_bytes(old(self).bytes@, old(self).sizes@, body@),
            final(self).sizes@ == pushed_sizes(old(self).sizes@, body@.len() as usize),
    {
        let mut j: usize = 0;
        let ghost start = self.bytes@;
        while j < body.len()
            invariant
                j <= body@.len(),
                self.bytes@ == start + body@.subrange(0, j as int),
                self.sizes == old(self).sizes,
                start == old(self).bytes@,
                start.len() <= MAX_BODY * NUM_PREV_FRAMES,
                body@.len() <= MAX_BODY,
            decreases body@.len() - j,
        {
            self.bytes.push(body[j]);
            proof {
                assert(self.bytes@ =~= start + body@.subrange(0, j + 1));
            }
            j = j + 1;
        }
        proof {
            assert(body@.subrange(0, j as int) =~= body@);
            lemma_sum_push(self.sizes@, body.len());
        }
        self.sizes.push(body.len());
        if self.sizes.len() > NUM_PREV_FRAMES {
            let drop = self.sizes[0];
            let mut kept_sizes: Vec<usize> = Vec::new();
            let mut k: usize = 1;
            while k < self.sizes.len()
                invariant
                    1 <= k <= self.sizes@.len(),
                    kept_sizes@ == self.sizes@.subrange(1, k as int),
                decreases self.sizes@.len() - k,
            {
                kept_sizes.push(self.sizes[k]);
                proof {
                    assert(kept_sizes@ =~= self.sizes@.subrange(1, k + 1));
                }
                k = k + 1;
            }
            let mut kept: Vec<u8> = Vec::new();
            let mut m: usize = drop;
            proof {
                assert(self.sizes@.subrange(1, k as int) =~= self.sizes@.skip(1));
                assert(sum(self.sizes@) == drop + sum(self.sizes@.skip(1)));
            }
            while m < self.bytes.len()
                invariant
                    drop <= m <= self.bytes@.len(),
                    kept@ == self.bytes@.subrange(drop as int, m as int),
                decreases self.bytes@.len() - m,
            {
                kept.push(self.bytes[m]);
                proof {
                    assert(kept@ =~= self.bytes@.subrange(drop as int, m + 1));
                }
                m = m + 1;
            }
            proof {
                assert(kept@ =~= self.bytes@.skip(drop as int));
            }
            self.bytes = kept;
            self.sizes = kept_sizes;
        }
        proof {
            lemma_sum_bound(self.sizes@);
        }
    }
}

} // verus!
