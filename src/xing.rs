use crate::bits::{char_to_int, synchsafe_value};
use vstd::prelude::*;

verus! {

/// Bit of the Xing flags that announces the frame count.
pub const FRAME_FIELD: usize = 0;

/// Bit of the Xing flags that announces the byte count.
pub const BYTE_FIELD: usize = 1;

/// Bit of the Xing flags that announces the 100-byte table of contents.
pub const TOC: usize = 2;

/// Bit of the Xing flags that announces the quality field.
pub const QUALITY: usize = 3;

/// The four bytes at `p` spell "Xing" or "Info".
pub open spec fn is_xing_tag(b: Seq<u8>, p: int) -> bool {
    0 <= p && p + 4 <= b.len() && ((b[p] == 0x58u8 && b[p + 1] == 0x69u8 && b[p + 2] == 0x6Eu8
        && b[p + 3] == 0x67u8) || (b[p] == 0x49u8 && b[p + 1] == 0x6Eu8 && b[p + 2] == 0x66u8
        && b[p + 3] == 0x6Fu8))
}

/// A frame sync pattern starts at `p`.
pub open spec fn is_sync_at(b: Seq<u8>, p: int) -> bool {
    0 <= p && p + 1 < b.len() && b[p] == 0xFFu8 && b[p + 1] >= 0xE0u8
}

/// Where the first Xing or Info tag at or after `p` starts, searching no
/// further than the next frame sync.
pub open spec fn find_xing_tag(b: Seq<u8>, p: int) -> Option<int>
    decreases b.len() - p,
{
    if p < 0 || p + 4 > b.len() {
        None
    } else if is_xing_tag(b, p) {
        Some(p)
    } else if is_sync_at(b, p) {
        None
    } else {
        find_xing_tag(b, p + 1)
    }
}

/// The flag byte of a tag at `p`: the last of the four bytes that follow it.
pub open spec fn xing_flags(b: Seq<u8>, p: int) -> u8 {
    if 0 <= p && p + 8 <= b.len() {
        b[p + 7]
    } else {
        0
    }
}

/// The synchsafe number in the four bytes at `p`, when they are in `b`.
pub open spec fn field_at(b: Seq<u8>, p: int) -> Option<i32> {
    if 0 <= p && p + 4 <= b.len() {
        Some(synchsafe_value(b.subrange(p, p + 4)) as i32)
    } else {
        None
    }
}

/// A Xing or Info header: the flags, then the fields that they announce in
/// the order frame count, byte count, table of contents, quality.
pub struct Xing {
    /// Where the four flag bytes start.
    pub start: u32,
    /// How many four-byte count fields have been read.
    pub field_num: u8,
    pub xing_extensions: [bool; 4],
    pub byte_quantity: Option<i32>,
    pub frame_quantity: Option<i32>,
    pub quality: Option<u8>,
}

impl Xing {
    /// Looks for a Xing or Info header from `offset` on and reads it.
    pub fn new(buffer: &[u8], offset: u32) -> (r: Xing)
        requires
            buffer@.len() <= u32::MAX - 200,
        ensures
            match find_xing_tag(buffer@, offset as int) {
                None => r.frame_quantity is None && r.byte_quantity is None && r.quality is None
                    && r.start == 0,
                Some(p) => {
                    let flags = xing_flags(buffer@, p);
                    let has = |k: int| (flags >> (k as u8)) & 1u8 == 1;
                    let frames_pos = p + 8;
                    let bytes_pos = frames_pos + if has(0) { 4int } else { 0int };
                    let quality_pos = bytes_pos + (if has(1) { 4int } else { 0int }) + (if has(2) {
                        100int
                    } else {
                        0int
                    });
                    &&& r.start == p + 4
                    &&& forall|k: int| 0 <= k < 4 ==> r.xing_extensions[k] == has(k)
                    &&& r.frame_quantity == if has(0) { field_at(buffer@, frames_pos) } else { None }
                    &&& r.byte_quantity == if has(1) { field_at(buffer@, bytes_pos) } else { None }
                    &&& r.quality == if has(3) && quality_pos + 4 <= buffer@.len() {
                        Some(buffer@[quality_pos + 3])
                    } else {
                        None
                    }
                },
            },
    {
        let mut xing = Xing {
            start: 0,
            field_num: 0,
            xing_extensions: [false; 4],
            byte_quantity: None,
            frame_quantity: None,
            quality: None,
        };
        let len = buffer.len();
        let mut pos: usize = offset as usize;
        while pos <= len && len - pos >= 4
            invariant
                len == buffer@.len() <= u32::MAX - 200,
                find_xing_tag(buffer@, pos as int) == find_xing_tag(buffer@, offset as int),
                xing.frame_quantity is None && xing.byte_quantity is None && xing.quality is None
                    && xing.start == 0 && xing.field_num == 0,
                forall|k: int| 0 <= k < 4 ==> !xing.xing_extensions[k],
            decreases len - pos,
        {
            let tag = (buffer[pos] == 0x58u8 && buffer[pos + 1] == 0x69u8 && buffer[pos + 2] == 0x6Eu8
                && buffer[pos + 3] == 0x67u8) || (buffer[pos] == 0x49u8 && buffer[pos + 1] == 0x6Eu8
                && buffer[pos + 2] == 0x66u8 && buffer[pos + 3] == 0x6Fu8);
            if tag {
                xing.start = (pos + 4) as u32;
                if len - pos >= 8 {
                    xing.set_xing_extensions(buffer);
                } else {
                    assert((0u8 >> 0u8) & 1u8 == 0u8 && (0u8 >> 1u8) & 1u8 == 0u8 && (0u8 >> 2u8) & 1u8
                        == 0u8 && (0u8 >> 3u8) & 1u8 == 0u8) by (bit_vector);
                }
                if xing.xing_extensions[FRAME_FIELD] {
                    xing.set_frame_quantity(buffer);
                }
                if xing.xing_extensions[BYTE_FIELD] {
                    xing.set_byte_quantity(buffer);
                }
                if xing.xing_extensions[QUALITY] {
                    xing.set_quality(buffer);
                }
                return xing;
            } else if buffer[pos] == 0xFFu8 && buffer[pos + 1] >= 0xE0u8 {
                return xing;
            }
            pos = pos + 1;
        }
        xing
    }

    fn set_xing_extensions(&mut self, buffer: &[u8])
        requires
            old(self).start + 4 <= buffer@.len(),
            old(self).start + 4 <= u32::MAX,
        ensures
            forall|k: int|
                0 <= k < 4 ==> final(self).xing_extensions[k] == ((buffer@[old(self).start + 3] >> (
                k as u8)) & 1u8 == 1),
            *final(self) == (Xing { xing_extensions: final(self).xing_extensions, ..*old(self) }),
    {
        let flag_byte = buffer[(self.start + 3) as usize];
        let mut bit_num: usize = 0;
        while bit_num < 4
            invariant
                0 <= bit_num <= 4,
                flag_byte == buffer@[old(self).start + 3],
                forall|k: int|
                    0 <= k < bit_num ==> self.xing_extensions[k] == ((flag_byte >> (k as u8)) & 1u8
                        == 1),
                *self == (Xing { xing_extensions: self.xing_extensions, ..*old(self) }),
            decreases 4 - bit_num,
        {
            self.xing_extensions[bit_num] = (flag_byte >> (bit_num as u8)) & 1u8 == 1;
            bit_num = bit_num + 1;
        }
    }

    /// Where the next four-byte count field starts.
    spec fn next_field(&self) -> int {
        self.start + 4 + 4 * self.field_num
    }

    fn set_frame_quantity(&mut self, buffer: &[u8])
        requires
            old(self).field_num < 2,
            old(self).start + 16 <= u32::MAX,
        ensures
            final(self).frame_quantity == field_at(buffer@, old(self).next_field()),
            final(self).field_num == old(self).field_num + 1,
            *final(self) == (Xing {
                frame_quantity: final(self).frame_quantity,
                field_num: final(self).field_num,
                ..*old(self)
            }),
    {
        self.frame_quantity = self.read_field(buffer);
        self.field_num = self.field_num + 1;
    }

    pub fn get_frame_quantity(&self) -> (r: Option<i32>)
        ensures
            r == self.frame_quantity,
    {
        self.frame_quantity
    }

    fn set_byte_quantity(&mut self, buffer: &[u8])
        requires
            old(self).field_num < 2,
            old(self).start + 16 <= u32::MAX,
        ensures
            final(self).byte_quantity == field_at(buffer@, old(self).next_field()),
            final(self).field_num == old(self).field_num + 1,
            *final(self) == (Xing {
                byte_quantity: final(self).byte_quantity,
                field_num: final(self).field_num,
                ..*old(self)
            }),
    {
        self.byte_quantity = self.read_field(buffer);
        self.field_num = self.field_num + 1;
    }

    pub fn get_byte_quantity(&self) -> (r: Option<i32>)
        ensures
            r == self.byte_quantity,
    {
        self.byte_quantity
    }

    fn read_field(&self, buffer: &[u8]) -> (r: Option<i32>)
        requires
            self.field_num < 2,
            self.start + 16 <= u32::MAX,
        ensures
            r == field_at(buffer@, self.next_field()),
    {
        let p = (self.start + 4 + 4 * self.field_num as u32) as usize;
        if p <= buffer.len() && buffer.len() - p >= 4 {
            let v = char_to_int(&buffer[p..p + 4]);
            proof {
                assert(v < 0x4000_0000) by {
                    lemma_synchsafe4_bound(buffer@.subrange(p as int, p + 4));
                }
            }
            Some(v as i32)
        } else {
            None
        }
    }

    fn set_quality(&mut self, buffer: &[u8])
        requires
            old(self).field_num <= 2,
            old(self).start + 200 <= u32::MAX,
        ensures
            ({
                let q = old(self).next_field() + if old(self).xing_extensions[2] { 100int } else { 0int };
                final(self).quality == if q + 4 <= buffer@.len() { Some(buffer@[q + 3]) } else { None }
            }),
            *final(self) == (Xing { quality: final(self).quality, ..*old(self) }),
    {
        let toc: u32 = if self.xing_extensions[TOC] { 100 } else { 0 };
        let q = (self.start + 4 + 4 * self.field_num as u32 + toc) as usize;
        if q <= buffer.len() && buffer.len() - q >= 4 {
            self.quality = Some(buffer[q + 3]);
        } else {
            self.quality = None;
        }
    }

    pub fn get_quality(&self) -> (r: Option<u8>)
        ensures
            r == self.quality,
    {
        self.quality
    }
}

proof fn lemma_synchsafe4_bound(s: Seq<u8>)
    requires
        s.len() == 4,
    ensures
        synchsafe_value(s) < 0x4000_0000,
{
    reveal_with_fuel(synchsafe_value, 5);
    assert(s.drop_last().drop_last().drop_last().drop_last().len() == 0);
}

} // verus!
