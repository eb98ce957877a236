use crate::bits::synchsafe_value;
use crate::header::{frame_size_of, header_result, DecodeError};
use crate::id3::{ext_size_of, flag_bit, id3_header_ok, Id3};
use crate::layout::{find_first, find_sync, lemma_find_first};
use crate::mp3::{frame_result, reservoir_after, Mp3};
use vstd::prelude::*;

verus! {

/// What became of a frame.
#[derive(Debug, Clone, Copy, PartialEq, Eq, Structural)]
pub enum FrameStatus {
    /// Its lines were decoded.
    Decoded,
    /// Its main data could not be had (reservoir underflow or bit overrun):
    /// it stands for a frame of silence.
    Silent,
}

/// How a frame's decoding outcome reads for the stream: frames whose main
/// data cannot be had stand for silence.
pub open spec fn status_of(r: Result<(), DecodeError>) -> Result<FrameStatus, DecodeError> {
    match r {
        Ok(()) => Ok(FrameStatus::Decoded),
        Err(DecodeError::ReservoirUnderflow) => Ok(FrameStatus::Silent),
        Err(DecodeError::BitOverrun) => Ok(FrameStatus::Silent),
        Err(e) => Err(e),
    }
}

/// Bytes that an ID3v2 tag at the start of `b` takes: the header, the
/// extended header, the tag and the footer; none without a tag, or with
/// sizes of 2^28 bytes or more.
pub open spec fn tag_skip(b: Seq<u8>) -> int {
    let size = synchsafe_value(b.subrange(6, 10));
    let ext = ext_size_of(b);
    if id3_header_ok(b) && size < 0x1000_0000 && ext < 0x1000_0000 {
        10 + ext + size + if flag_bit(b[5], 0) { 10int } else { 0int }
    } else {
        0
    }
}

/// A stream of frames, walked from the first frame after any ID3v2 tag.
pub struct Mp3Stream {
    pub stream: Vec<u8>,
    /// Where the next frame is looked for.
    pub pos: usize,
    pub core: Mp3,
}

impl Mp3Stream {
    pub open spec fn wf(&self) -> bool {
        self.core.wf()
    }

    /// Starts at the first valid frame header after the ID3v2 tag, if any.
    pub fn new(stream: Vec<u8>) -> (r: Result<Mp3Stream, DecodeError>)
        ensures
            r is Ok <==> find_first(stream@, tag_skip(stream@)) is Some,
            r matches Ok(s) ==> s.wf() && s.stream@ == stream@ && Some(s.pos as int) == find_first(
                stream@,
                tag_skip(stream@),
            ) && s.core.valid && s.core.reservoir.bytes@.len() == 0,
            r matches Err(e) ==> e == DecodeError::InvalidHeader,
    {
        let id3 = Id3::new(stream.clone());
        let skip = if id3.offset < 0x1000_0000 && id3.extended_header_size < 0x1000_0000 {
            id3.get_skip_length()
        } else {
            0
        };
        proof {
            assert(skip == tag_skip(stream@));
        }
        match find_sync(stream.as_slice(), skip) {
            None => Err(DecodeError::InvalidHeader),
            Some(p) => {
                let rest = &stream.as_slice()[p..stream.len()];
                proof {
                    assert(rest@ =~= stream@.skip(p as int));
                    assert(rest@.skip(0) =~= rest@);
                    lemma_find_first(rest@, 0, 0);
                }
                let core = Mp3::new(rest);
                Ok(Mp3Stream { stream, pos: p, core })
            },
        }
    }

    /// Forgets the bit reservoir, as after a seek.
    pub fn reset(&mut self)
        requires
            old(self).wf(),
        ensures
            final(self).wf(),
            final(self).core.reservoir.bytes@.len() == 0,
            final(self).pos == old(self).pos,
            final(self).stream == old(self).stream,
    {
        self.core.reset();
    }

    /// Decodes the frame at the first valid header at or after `pos`, and
    /// moves `pos` past it. Bytes before that header are skipped.
    pub fn next_frame(&mut self) -> (r: Result<FrameStatus, DecodeError>)
        requires
            old(self).wf(),
        ensures
            final(self).wf(),
            final(self).stream == old(self).stream,
            ({
                let s = old(self).stream@;
                match find_first(s, old(self).pos as int) {
                    None => r == Err::<FrameStatus, DecodeError>(DecodeError::EndOfStream)
                        && final(self).pos == old(self).pos && final(self).core.reservoir == old(
                        self,
                    ).core.reservoir,
                    Some(q) => {
                        let h = header_result(s.skip(q)).unwrap();
                        let end = if q + frame_size_of(h) <= s.len() { q + frame_size_of(h) } else { s.len() as int };
                        &&& final(self).core.header == h
                        &&& final(self).pos == end
                        &&& r == status_of(frame_result(
                            h,
                            old(self).core.reservoir.bytes@,
                            s.subrange(q, end),
                            frame_size_of(h) as int,
                        ))
                        &&& r matches Ok(FrameStatus::Decoded) ==> final(self).core.granules_decoded()
                        &&& reservoir_after(
                            old(self).core.reservoir,
                            final(self).core.reservoir,
                            h,
                            s.subrange(q, end),
                            frame_size_of(h) as int,
                        )
                    },
                }
            }),
    {
        let p = match find_sync(self.stream.as_slice(), self.pos) {
            None => return Err(DecodeError::EndOfStream),
            Some(p) => p,
        };

        let len = self.stream.len();
        let rest = &self.stream.as_slice()[p..len];
        proof {
            assert(rest@ =~= self.stream@.skip(p as int));
        }
        let _ = self.core.init_header_params(rest);
        let size = self.core.frame_size;
        let end = if size <= len - p { p + size } else { len };
        let frame = &self.stream.as_slice()[p..end];
        self.pos = end;
        match self.core.init_frame_params(frame) {
            Ok(()) => Ok(FrameStatus::Decoded),
            Err(DecodeError::ReservoirUnderflow) => Ok(FrameStatus::Silent),
            Err(DecodeError::BitOverrun) => Ok(FrameStatus::Silent),
            Err(e) => Err(e),
        }
    }
}

} // verus!
