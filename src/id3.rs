use crate::bits::{char_to_int, synchsafe_value};
use vstd::prelude::*;
use vstd::string::StringExecFns;

verus! {

/// Index of the footer-present flag in `Id3::id3_flags`.
pub const FOOTER_PRESENT: usize = 0;

/// Index of the experimental-indicator flag in `Id3::id3_flags`.
pub const EXPERIMENTAL_INDICATOR: usize = 1;

/// Index of the extended-header flag in `Id3::id3_flags`.
pub const EXTENDED_HEADER: usize = 2;

/// Index of the unsynchronisation flag in `Id3::id3_flags`.
pub const UNSYNCHRONISATION: usize = 3;

/// The decimal digits of `n`, most significant first.
pub open spec fn decimal(n: nat) -> Seq<char>
    decreases n,
{
    let digit = seq!['0', '1', '2', '3', '4', '5', '6', '7', '8', '9'][(n % 10) as int];
    if n < 10 {
        seq![digit]
    } else {
        decimal(n / 10).push(digit)
    }
}

/// The text of the bytes `b` read as UTF-8, invalid sequences replaced.
pub uninterp spec fn utf8_lossy(b: Seq<u8>) -> Seq<char>;

/// Relies on `String::from_utf8_lossy`: the text depends on the bytes alone.
#[verifier::external_body]
fn text_of(b: &[u8]) -> (r: String)
    ensures
        r@ == utf8_lossy(b@),
{
    String::from_utf8_lossy(b).into_owned()
}

fn digit_text(d: u8) -> (r: &'static str)
    requires
        d < 10,
    ensures
        r@ == seq![seq!['0', '1', '2', '3', '4', '5', '6', '7', '8', '9'][d as int]],
{
    proof {
        reveal_strlit("0");
        reveal_strlit("1");
        reveal_strlit("2");
        reveal_strlit("3");
        reveal_strlit("4");
        reveal_strlit("5");
        reveal_strlit("6");
        reveal_strlit("7");
        reveal_strlit("8");
        reveal_strlit("9");
    }
    if d == 0 { "0" } else if d == 1 { "1" } else if d == 2 { "2" } else if d == 3 { "3" }
    else if d == 4 { "4" } else if d == 5 { "5" } else if d == 6 { "6" } else if d == 7 { "7" }
    else if d == 8 { "8" } else { "9" }
}

/// Appends the decimal digits of `n`.
fn append_decimal(s: &mut String, n: u8)
    ensures
        final(s)@ == old(s)@ + decimal(n as nat),
{
    proof {
        reveal_with_fuel(decimal, 3);
    }
    if n >= 100 {
        s.append(digit_text(n / 100));
    }
    if n >= 10 {
        s.append(digit_text((n / 10) % 10));
    }
    s.append(digit_text(n % 10));
    proof {
        let d = seq!['0', '1', '2', '3', '4', '5', '6', '7', '8', '9'];
        if n >= 100 {
            assert(decimal(n as nat) =~= seq![d[(n / 100) as int], d[((n / 10) % 10) as int], d[(n % 10) as int]]);
        } else if n >= 10 {
            assert(decimal(n as nat) =~= seq![d[(n / 10) as int], d[(n % 10) as int]]);
        } else {
            assert(decimal(n as nat) =~= seq![d[n as int]]);
        }
        assert(s@ =~= old(s)@ + decimal(n as nat));
    }
}

/// The version text "2.<major>.<revision>".
fn version_text(major: u8, revision: u8) -> (r: String)
    ensures
        r@ == seq!['2', '.'] + decimal(major as nat) + seq!['.'] + decimal(revision as nat),
{
    proof {
        reveal_strlit("2.");
        reveal_strlit(".");
    }
    let mut s = String::from_str("2.");
    append_decimal(&mut s, major);
    s.append(".");
    append_decimal(&mut s, revision);
    s
}

/// The frames found in `b` within its first `size` bytes: each is a four-byte
/// id, a four-byte synchsafe size, two flag bytes, and that many bytes of
/// content. The walk stops where a frame would not fit in `b`.
pub open spec fn frames_of(b: Seq<u8>, size: int) -> Seq<(Seq<u8>, Seq<u8>)>
    decreases b.len(),
{
    if size <= 0 || b.len() < 10 {
        seq![]
    } else {
        let n = synchsafe_value(b.subrange(4, 8)) as int;
        if b.len() < 10 + n {
            seq![]
        } else {
            seq![(b.subrange(0, 4), b.subrange(10, 10 + n))] + frames_of(b.skip(10 + n), size - 10 - n)
        }
    }
}

/// An ID3v2 tag at the start of a stream.
#[derive(Debug, Clone)]
pub struct Id3 {
    pub buffer: Vec<u8>,
    pub valid: bool,
    pub version: String,
    /// The tag size from the header.
    pub offset: usize,
    /// Footer present, experimental, extended header, unsynchronisation.
    pub id3_flags: [bool; 4],
    pub extended_header_size: usize,
    /// The frame ids, and the frame contents, in tag order.
    pub id3_frames: [Vec<String>; 2],
}

pub open spec fn has_id3_magic(b: Seq<u8>) -> bool {
    b.len() >= 10 && b[0] == 0x49u8 && b[1] == 0x44u8 && b[2] == 0x33u8
}

/// The tag header is well formed: magic, low flag bits clear, and the
/// extended-header size present when its flag is set.
pub open spec fn id3_header_ok(b: Seq<u8>) -> bool {
    &&& has_id3_magic(b)
    &&& b[5] & 0x0Fu8 == 0
    &&& (b[5] >> 6u8) & 1u8 == 1 ==> b.len() >= 14
}

pub open spec fn flag_bit(flags: u8, k: int) -> bool {
    (flags >> ((4 + k) as u8)) & 1u8 == 1
}

pub open spec fn ext_size_of(b: Seq<u8>) -> nat {
    if flag_bit(b[5], 2) {
        synchsafe_value(b.subrange(10, 14))
    } else {
        0
    }
}

/// The number of bytes the frames may take: the tag size less the extended
/// header and the footer.
pub open spec fn frames_area(tag_size: nat, ext: nat, footer: bool) -> int {
    tag_size - ext - if footer { 10int } else { 0int }
}

impl Id3 {
    /// Reads the tag at the start of `buffer`.
    pub fn new(buffer: Vec<u8>) -> (r: Id3)
        ensures
            r.buffer@ == buffer@,
            r.valid == id3_header_ok(buffer@),
            has_id3_magic(buffer@) ==> r.version@ == seq!['2', '.'] + decimal(buffer@[3] as nat)
                + seq!['.'] + decimal(buffer@[4] as nat),
            r.valid ==> {
                &&& r.offset == synchsafe_value(buffer@.subrange(6, 10))
                &&& forall|k: int| 0 <= k < 4 ==> r.id3_flags[k] == flag_bit(buffer@[5], k)
                &&& r.extended_header_size == ext_size_of(buffer@)
                &&& r.extended_header_size + 10 <= buffer@.len() ==> {
                    let fr = frames_of(
                        buffer@.skip(10 + r.extended_header_size),
                        frames_area(r.offset as nat, r.extended_header_size as nat, r.id3_flags[0]),
                    );
                    &&& r.id3_frames[0]@.len() == fr.len()
                    &&& r.id3_frames[1]@.len() == fr.len()
                    &&& forall|k: int| 0 <= k < fr.len() ==> r.id3_frames[0]@[k]@ == utf8_lossy(fr[k].0)
                        && r.id3_frames[1]@[k]@ == utf8_lossy(fr[k].1)
                }
            },
            !r.valid ==> r.offset == 0 && r.extended_header_size == 0 && r.id3_frames[0]@.len() == 0
                && r.id3_frames[1]@.len() == 0,
            !has_id3_magic(buffer@) ==> r.version@.len() == 0,
            !r.valid ==> forall|k: int| 0 <= k < 4 ==> !r.id3_flags[k],
            r.valid && r.extended_header_size + 10 > buffer@.len() ==> r.id3_frames[0]@.len() == 0
                && r.id3_frames[1]@.len() == 0,
    {
        let mut id3 = Id3 {
            buffer,
            valid: false,
            version: String::new(),
            offset: 0,
            id3_flags: [false; 4],
            extended_header_size: 0,
            id3_frames: [Vec::new(), Vec::new()],
        };
        if id3.buffer.len() >= 10 && id3.buffer[0] == 0x49u8 && id3.buffer[1] == 0x44u8
            && id3.buffer[2] == 0x33u8 {
            let major = id3.buffer[3];
            let revision = id3.buffer[4];
            id3.set_version(major, revision);
            let flags = id3.buffer[5];
            let extended = (flags >> 6u8) & 1u8 == 1;
            if flags & 0x0Fu8 == 0 && (!extended || id3.buffer.len() >= 14) {
                id3.set_flags(flags);
                assert(id3.id3_flags[2] == extended) by {
                    assert(flag_bit(flags, 2) == ((flags >> 6u8) & 1u8 == 1));
                }
                id3.valid = true;
                let size = char_to_int(&id3.buffer.as_slice()[6..10]);
                id3.set_offset(size as usize);
                if id3.id3_flags[EXTENDED_HEADER] {
                    let ext = char_to_int(&id3.buffer.as_slice()[10..14]);
                    id3.set_extended_header_size(ext as usize);
                }
                id3.set_fields();
            }
        }
        id3
    }

    pub fn is_valid(&self) -> (r: bool)
        ensures
            r == self.valid,
    {
        self.valid
    }

    pub fn get_id3_version(&self) -> (r: String)
        ensures
            r@ == self.version@,
    {
        self.version.clone()
    }

    pub fn get_id3_flags(&self) -> (r: [bool; 4])
        ensures
            r == self.id3_flags,
    {
        self.id3_flags
    }

    pub fn get_id3_offset(&self) -> (r: usize)
        ensures
            r == self.offset,
    {
        self.offset
    }

    pub fn get_id3_extended_header_size(&self) -> (r: usize)
        ensures
            r == self.extended_header_size,
    {
        self.extended_header_size
    }

    pub fn get_id3_fields(&self) -> (r: &[Vec<String>; 2])
        ensures
            r == &self.id3_frames,
    {
        &self.id3_frames
    }

    pub fn get_id3_fields_length(&self) -> (r: usize)
        ensures
            r == self.id3_frames[1]@.len(),
    {
        self.id3_frames[1].len()
    }

    /// The bytes that the tag takes at the start of the stream: the header,
    /// the extended header, the tag body and the footer if present.
    pub fn get_skip_length(&self) -> (r: usize)
        requires
            self.offset < 0x1000_0000,
            self.extended_header_size < 0x1000_0000,
        ensures
            self.valid ==> r == 10 + self.extended_header_size + self.offset
                + if self.id3_flags[0] { 10nat } else { 0nat },
            !self.valid ==> r == 0,
    {
        if !self.valid {
            return 0;
        }
        let footer: usize = if self.id3_flags[FOOTER_PRESENT] { 10 } else { 0 };
        10 + self.extended_header_size + self.offset + footer
    }

    fn set_version(&mut self, version: u8, revision: u8)
        ensures
            final(self).version@ == seq!['2', '.'] + decimal(version as nat) + seq!['.']
                + decimal(revision as nat),
            final(self).buffer == old(self).buffer,
            final(self).valid == old(self).valid,
            final(self).offset == old(self).offset,
            final(self).id3_flags == old(self).id3_flags,
            final(self).extended_header_size == old(self).extended_header_size,
            final(self).id3_frames == old(self).id3_frames,
    {
        self.version = version_text(version, revision);
    }

    fn set_offset(&mut self, offset: usize)
        ensures
            *final(self) == (Id3 { offset, ..*old(self) }),
    {
        self.offset = offset;
    }

    fn set_extended_header_size(&mut self, size: usize)
        ensures
            *final(self) == (Id3 { extended_header_size: size, ..*old(self) }),
    {
        self.extended_header_size = size;
    }

    /// Takes the four high flag bits; fails when any of the four low bits is set.
    fn set_flags(&mut self, flags: u8) -> (r: bool)
        ensures
            r == (flags & 0x0Fu8 == 0),
            r ==> forall|k: int| 0 <= k < 4 ==> final(self).id3_flags[k] == flag_bit(flags, k),
            !r ==> final(self).id3_flags == old(self).id3_flags,
            final(self).buffer == old(self).buffer,
            final(self).valid == old(self).valid,
            final(self).version == old(self).version,
            final(self).offset == old(self).offset,
            final(self).extended_header_size == old(self).extended_header_size,
            final(self).id3_frames == old(self).id3_frames,
    {
        if flags & 0x0Fu8 != 0 {
            return false;
        }
        let mut bit_num: usize = 4;
        while bit_num < 8
            invariant
                4 <= bit_num <= 8,
                forall|k: int| 0 <= k < bit_num - 4 ==> self.id3_flags[k] == flag_bit(flags, k),
                self.buffer == old(self).buffer,
                self.valid == old(self).valid,
                self.version == old(self).version,
                self.offset == old(self).offset,
                self.extended_header_size == old(self).extended_header_size,
                self.id3_frames == old(self).id3_frames,
            decreases 8 - bit_num,
        {
            self.id3_flags[bit_num - 4] = (flags >> (bit_num as u8)) & 1u8 == 1;
            bit_num = bit_num + 1;
        }
        true
    }

    /// Reads the frames that follow the header and any extended header.
    fn set_fields(&mut self)
        requires
            old(self).offset < 0x1_0000_0000,
            old(self).extended_header_size < 0x1_0000_0000,
        ensures
            final(self).buffer == old(self).buffer,
            final(self).valid == old(self).valid,
            final(self).version == old(self).version,
            final(self).offset == old(self).offset,
            final(self).id3_flags == old(self).id3_flags,
            final(self).extended_header_size == old(self).extended_header_size,
            old(self).extended_header_size + 10 <= old(self).buffer@.len() ==> {
                let fr = frames_of(
                    old(self).buffer@.skip(10 + old(self).extended_header_size),
                    frames_area(
                        old(self).offset as nat,
                        old(self).extended_header_size as nat,
                        old(self).id3_flags[0],
                    ),
                );
                &&& final(self).id3_frames[0]@.len() == fr.len()
                &&& final(self).id3_frames[1]@.len() == fr.len()
                &&& forall|k: int| 0 <= k < fr.len() ==> final(self).id3_frames[0]@[k]@ == utf8_lossy(fr[k].0)
                    && final(self).id3_frames[1]@[k]@ == utf8_lossy(fr[k].1)
            },
            old(self).extended_header_size + 10 > old(self).buffer@.len() ==> final(self).id3_frames[0]@.len()
                == 0 && final(self).id3_frames[1]@.len() == 0,
    {
        let mut ids: Vec<String> = Vec::new();
        let mut contents: Vec<String> = Vec::new();
        if self.buffer.len() < 10 || self.extended_header_size > self.buffer.len() - 10 {
            self.id3_frames = [ids, contents];
            return;
        }
        let start: usize = 10 + self.extended_header_size;
        let footer: i64 = if self.id3_flags[FOOTER_PRESENT] { 10 } else { 0 };
        let area: i64 = self.offset as i64 - self.extended_header_size as i64 - footer;
        let buf = self.buffer.as_slice();
        let len = buf.len();
        let mut i: usize = start;
        let mut remaining: i64 = area;
        let mut done = false;
        let ghost acc: Seq<(Seq<u8>, Seq<u8>)> = seq![];
        while !done && remaining > 0 && len - i >= 10
            invariant
                start <= i <= len,
                len == buf@.len(),
                buf@ == self.buffer@,
                -0x2_0000_0000 < remaining <= area,
                area == frames_area(
                    self.offset as nat,
                    self.extended_header_size as nat,
                    self.id3_flags[0],
                ),
                start == 10 + self.extended_header_size,
                acc + frames_of(buf@.skip(i as int), remaining as int) == frames_of(
                    buf@.skip(start as int),
                    area as int,
                ),
                done ==> frames_of(buf@.skip(i as int), remaining as int) == Seq::<(Seq<u8>, Seq<u8>)>::empty(),
                ids@.len() == acc.len(),
                contents@.len() == acc.len(),
                forall|k: int| 0 <= k < acc.len() ==> ids@[k]@ == utf8_lossy(acc[k].0) && contents@[k]@
                    == utf8_lossy(acc[k].1),
            decreases len - i + if done { 0int } else { 1int },
        {
            let ghost b = buf@.skip(i as int);
            assert(b.subrange(4, 8) =~= buf@.subrange(i + 4, i + 8));
            let n = char_to_int(&buf[i + 4..i + 8]) as usize;
            proof {
                assert(n < 0x1_0000_0000) by {
                    assert(n == synchsafe_value(b.subrange(4, 8)));
                }
            }
            if len - i - 10 < n {
                done = true;
            } else {
                let id = text_of(&buf[i..i + 4]);
                let content = text_of(&buf[i + 10..i + 10 + n]);
                proof {
                    assert(b.subrange(0, 4) =~= buf@.subrange(i as int, i + 4));
                    assert(b.subrange(10, 10 + n) =~= buf@.subrange(i + 10, i + 10 + n));
                    assert(b.skip(10 + n) =~= buf@.skip(i + 10 + n));
                    let item = (b.subrange(0, 4), b.subrange(10, 10 + n));
                    assert(frames_of(b, remaining as int) == seq![item] + frames_of(
                        b.skip(10 + n),
                        remaining - 10 - n,
                    ));
                    assert(acc.push(item) + frames_of(b.skip(10 + n), remaining - 10 - n) =~= acc
                        + frames_of(b, remaining as int));
                    acc = acc.push(item);
                }
                ids.push(id);
                contents.push(content);
                i = i + 10 + n;
                remaining = remaining - 10 - n as i64;
            }
        }
        proof {
            assert(frames_of(buf@.skip(i as int), remaining as int) == Seq::<(Seq<u8>, Seq<u8>)>::empty());
            assert(acc + Seq::<(Seq<u8>, Seq<u8>)>::empty() =~= acc);
        }
        self.id3_frames = [ids, contents];
    }
}

} // verus!
