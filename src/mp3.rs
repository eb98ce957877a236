use crate::header::{
    lemma_frame_size_max, lemma_mpeg1_frame_size_min, frame_size, frame_size_of, header_result, header_wf, parse_header, ChannelMode, DecodeError,
    Emphasis, FrameHeader, MpegVersion,
};
use crate::huffman::{granule_lines, ints, unpack_samples};
use crate::layout::{find_first, find_sync};
use crate::reservoir::{pushed_bytes, pushed_sizes, Reservoir, NUM_PREV_FRAMES};
use crate::scalefac::{lemma_granule0_ignores_prev, scalefac_read, lemma_scalefac_bits_bound, is_short_block, scalefac_bits, unpack_scalefac, Scalefactors};
use crate::side_info::{granule_bounded, parse_side_info, side_info_len, side_info_result, GranuleInfo, SideInfo};
use crate::tables::{big_value_table, count1_table, long_index_of, table_model, quad_model, BandIndex};
use vstd::prelude::*;

verus! {

/// Bytes of a frame header.
pub const HEADER_SIZE: usize = 4;

/// Where the big-value regions 1 and 2 begin, in lines.
pub open spec fn region_bounds(g: GranuleInfo, rate: u32) -> (int, int) {
    if g.window_switching && g.block_type == 2 {
        (36, 576)
    } else {
        let li = long_index_of(rate);
        let a = g.region0_count + 1;
        let b = g.region0_count + g.region1_count + 2;
        (if a < 23 { li[a as int] as int } else { 576 }, if b < 23 { li[b as int] as int } else { 576 })
    }
}

/// Lines coded as big values: two per pair, at most a granule.
pub open spec fn big_lines(g: GranuleInfo) -> int {
    if 2 * g.big_value > 576 { 576 } else { 2 * g.big_value }
}

/// The 576 quantized lines of granule `g` whose part 2 and 3 start at `bit`.
#[verifier::opaque]
pub open spec fn lines_of(main: Seq<u8>, bit: int, g: GranuleInfo, share: [bool; 4], gr: int, rate: u32) -> Seq<int> {
    let eff = if gr == 0 || is_short_block(g) { [false, false, false, false] } else { share };
    let (r0, r1) = region_bounds(g, rate);
    granule_lines(
        main,
        bit + scalefac_bits(g, eff),
        bit + g.part2_3_length,
        big_lines(g),
        table_model(g.table_select[0]),
        table_model(g.table_select[1]),
        table_model(g.table_select[2]),
        r0,
        r1,
        quad_model(g.count1table_select),
    )
}

/// Where part 2 and 3 of granule `gr`, channel `ch` start in the main data:
/// after those of the granule-channels before it in stream order.
pub open spec fn part_start(si: SideInfo, mono: bool, gr: int, ch: int) -> int {
    let p00 = si.granules[0][0].part2_3_length as int;
    let p01 = si.granules[0][1].part2_3_length as int;
    let p10 = si.granules[1][0].part2_3_length as int;
    if mono {
        if gr == 0 { 0 } else { p00 }
    } else if gr == 0 {
        if ch == 0 { 0 } else { p00 }
    } else {
        p00 + p01 + if ch == 0 { 0 } else { p10 }
    }
}

/// Bits of part 2 and 3 of the whole frame.
pub open spec fn parts_total(si: SideInfo, mono: bool) -> int {
    let p00 = si.granules[0][0].part2_3_length as int;
    let p10 = si.granules[1][0].part2_3_length as int;
    if mono {
        p00 + p10
    } else {
        p00 + si.granules[0][1].part2_3_length as int + p10 + si.granules[1][1].part2_3_length as int
    }
}

/// Decoding is a function of the frame's side information and main data:
/// two decoders that decoded frames with the same header, side information
/// and main data hold the same quantized lines. After a reset the main data
/// of a frame is its own body, so replaying a frame gives the same lines.
pub proof fn lemma_replay_same_lines(a: Mp3, b: Mp3)
    requires
        a.granules_decoded(),
        b.granules_decoded(),
        a.header == b.header,
        a.side_info == b.side_info,
        a.main_data@ == b.main_data@,
    ensures
        forall|gr: int, ch: int|
            0 <= gr < 2 && 0 <= ch < (if a.header.channel_mode == ChannelMode::Mono { 1int } else { 2int })
                ==> #[trigger] a.samples@[2 * gr + ch]@ == b.samples@[2 * gr + ch]@,
{
    reveal(Mp3::granules_decoded);
    assert forall|gr: int, ch: int|
        0 <= gr < 2 && 0 <= ch < (if a.header.channel_mode == ChannelMode::Mono { 1int } else { 2int })
            implies #[trigger] a.samples@[2 * gr + ch]@ == b.samples@[2 * gr + ch]@ by {
        let x = a.samples@[2 * gr + ch]@;
        let y = b.samples@[2 * gr + ch]@;
        assert(ints(x) == ints(y));
        assert(x.len() == ints(x).len());
        assert forall|i: int| 0 <= i < x.len() implies x[i] == y[i] by {
            assert(ints(x)[i] == ints(y)[i]);
        }
        assert(x =~= y);
    }
}

/// What decoding `frame` as a frame with header `h` and `fs` bytes gives,
/// with `kept` the bytes in the bit reservoir.
pub open spec fn frame_result(h: FrameHeader, kept: Seq<u8>, frame: Seq<u8>, fs: int) -> Result<(), DecodeError> {
    let mono = h.channel_mode == ChannelMode::Mono;
    let off: int = 4 + if h.crc { 2int } else { 0int };
    if h.version != MpegVersion::Mpeg1 {
        Err(DecodeError::UnsupportedVersion)
    } else if frame.len() < fs {
        Err(DecodeError::EndOfStream)
    } else {
        match side_info_result(frame.subrange(off, fs), mono) {
            Err(e) => Err(e),
            Ok(si) => if si.main_data_begin > kept.len() {
                Err(DecodeError::ReservoirUnderflow)
            } else if parts_total(si, mono) > 8 * (si.main_data_begin + fs - header_side_size(h)) {
                Err(DecodeError::BitOverrun)
            } else {
                Ok(())
            },
        }
    }
}

/// Whether decoding `frame` with header `h` and `fs` bytes reads its side
/// information, after which its body joins the bit reservoir.
pub open spec fn reads_side_info(h: FrameHeader, frame: Seq<u8>, fs: int) -> bool {
    let off: int = 4 + if h.crc { 2int } else { 0int };
    &&& h.version == MpegVersion::Mpeg1
    &&& frame.len() >= fs
    &&& side_info_result(frame.subrange(off, fs), h.channel_mode == ChannelMode::Mono) is Ok
}

/// The reservoir after decoding `frame`, with `old` the one before: the
/// frame's body joins it whenever the side information was read, whether or
/// not the main data could then be had.
pub open spec fn reservoir_after(old: Reservoir, new: Reservoir, h: FrameHeader, frame: Seq<u8>, fs: int) -> bool {
    if reads_side_info(h, frame, fs) {
        let body = frame.subrange(header_side_size(h), fs);
        &&& new.bytes@ == pushed_bytes(old.bytes@, old.sizes@, body)
        &&& new.sizes@ == pushed_sizes(old.sizes@, body.len() as usize)
    } else {
        new == old
    }
}

/// Two decoders with the same reservoir that decode the same frame with
/// the same header keep the same reservoir afterwards.
pub proof fn lemma_replay_same_reservoir(old: Reservoir, a: Reservoir, b: Reservoir, h: FrameHeader, frame: Seq<u8>, fs: int)
    requires
        reservoir_after(old, a, h, frame, fs),
        reservoir_after(old, b, h, frame, fs),
    ensures
        a.bytes@ == b.bytes@,
        a.sizes@ == b.sizes@,
{
}

/// Bytes of header, CRC and side information.
pub open spec fn header_side_size(h: FrameHeader) -> int {
    4 + (if h.crc { 2int } else { 0int }) + if h.channel_mode == ChannelMode::Mono { 17int } else { 32int }
}

/// Decodes the scalefactors and lines of one granule of one channel.
fn decode_granule(
    main: &[u8],
    bit: usize,
    g: &GranuleInfo,
    share: [bool; 4],
    gr: usize,
    prev: &[u32; 22],
    band: &BandIndex,
    rate: u32,
) -> (r: (Scalefactors, Vec<i32>))
    requires
        granule_bounded(*g),
        bit <= 0x10000,
        band.long_win@ == long_index_of(rate),
    ensures
        ints(r.1@) == lines_of(main@, bit as int, *g, share, gr as int, rate),
        r.1@.len() == 576,
        r.0.long[21] == 0,
        forall|w: int| 0 <= w < 3 ==> r.0.short[w][12] == 0,
        scalefac_read(main@, bit as int, *g, share, gr as int, *prev, r.0),
{
    let mut pos = bit;
    let sf = unpack_scalefac(main, &mut pos, g, share, gr, prev);
    proof {
        lemma_scalefac_bits_bound(*g, share);
        lemma_scalefac_bits_bound(*g, [false, false, false, false]);
    }
    let max_bit = bit + g.part2_3_length as usize;
    let lines: usize = if 2 * g.big_value > 576 { 576 } else { (2 * g.big_value) as usize };
    let (r0, r1): (usize, usize) = if g.window_switching && g.block_type == 2 {
        (36, 576)
    } else {
        let a = g.region0_count as u64 + 1;
        let b = g.region0_count as u64 + g.region1_count as u64 + 2;
        proof {
            assert(band.long_win@.len() == 23);
        }
        (
            if a < 23 { band.long_win[a as usize] as usize } else { 576 },
            if b < 23 { band.long_win[b as usize] as usize } else { 576 },
        )
    };
    let t0 = big_value_table(g.table_select[0]);
    let t1 = big_value_table(g.table_select[1]);
    let t2 = big_value_table(g.table_select[2]);
    let q = count1_table(g.count1table_select);
    let samples = unpack_samples(main, pos, max_bit, lines, &t0, &t1, &t2, r0, r1, &q);
    proof {
        reveal(lines_of);
    }
    (sf, samples)
}

/// The decoder of a Layer III stream, frame by frame: the header of the
/// current frame, its side information and main data, and the scalefactors
/// and quantized lines of each granule and channel.
pub struct Mp3 {
    pub valid: bool,
    pub header: FrameHeader,
    /// Bytes of the current frame, header included.
    pub frame_size: usize,
    /// Sizes of earlier frames, newest first.
    pub prev_frame_size: [usize; NUM_PREV_FRAMES],
    pub side_info: SideInfo,
    pub main_data: Vec<u8>,
    /// Scalefactors, at `2 * granule + channel`.
    pub scalefac: Vec<Scalefactors>,
    /// Quantized lines, 576 at `2 * granule + channel`.
    pub samples: Vec<Vec<i32>>,
    pub reservoir: Reservoir,
}

fn blank_header() -> (r: FrameHeader)
    ensures
        header_wf(r),
{
    FrameHeader {
        version: MpegVersion::Mpeg1,
        layer: 3,
        crc: false,
        bit_rate: 128000,
        sampling_rate: 44100,
        padding: false,
        channel_mode: ChannelMode::Stereo,
        intensity_stereo: false,
        ms_stereo: false,
        emphasis: Emphasis::NoEmphasis,
        private_bit: false,
        copyright: false,
        original: false,
    }
}

fn blank_scalefactors() -> (r: Scalefactors) {
    Scalefactors { long: [0; 22], short: [[0; 13]; 3] }
}

fn blank_side_info() -> (r: SideInfo) {
    let g = GranuleInfo {
        part2_3_length: 0,
        big_value: 0,
        global_gain: 0,
        scalefac_compress: 0,
        slen1: 0,
        slen2: 0,
        window_switching: false,
        block_type: 0,
        mixed_block_flag: false,
        switch_point_l: 0,
        switch_point_s: 0,
        table_select: [0, 0, 0],
        subblock_gain: [0, 0, 0],
        region0_count: 0,
        region1_count: 0,
        preflag: 0,
        scalefac_scale: 0,
        count1table_select: 0,
    };
    SideInfo { main_data_begin: 0, scfsi: [[false; 4]; 2], granules: [[g, g], [g, g]] }
}

impl Mp3 {
    /// Each granule and channel of the current frame holds the lines that
    /// its part 2 and 3 code, and the scalefactors read at the start of its
    /// part 2, granule 1 sharing granule 0's long scalefactors where `scfsi`
    /// says so; band 21 (long) and band 12 (short) are zero.
    #[verifier::opaque]
    pub open spec fn granules_decoded(&self) -> bool {
        let mono = self.header.channel_mode == ChannelMode::Mono;
        let nch: int = if mono { 1 } else { 2 };
        forall|gr: int, ch: int|
            0 <= gr < 2 && 0 <= ch < nch ==> {
                &&& ints(#[trigger] self.samples@[2 * gr + ch]@) == lines_of(
                    self.main_data@,
                    part_start(self.side_info, mono, gr, ch),
                    self.side_info.granules[gr][ch],
                    self.side_info.scfsi[ch],
                    gr,
                    self.header.sampling_rate,
                )
                &&& self.scalefac@[2 * gr + ch].long[21] == 0
                &&& forall|w: int| 0 <= w < 3 ==> #[trigger] self.scalefac@[2 * gr + ch].short[w][12] == 0
                &&& scalefac_read(
                    self.main_data@,
                    part_start(self.side_info, mono, gr, ch),
                    self.side_info.granules[gr][ch],
                    self.side_info.scfsi[ch],
                    gr,
                    self.scalefac@[ch].long,
                    self.scalefac@[2 * gr + ch],
                )
            }
    }

    /// The decoder state that `init_frame_params` needs.
    pub open spec fn wf(&self) -> bool {
        &&& header_wf(self.header)
        &&& self.frame_size == frame_size_of(self.header)
        &&& self.reservoir.wf()
        &&& self.samples@.len() == 4
        &&& forall|k: int| 0 <= k < 4 ==> (#[trigger] self.samples@[k])@.len() == 576
        &&& self.scalefac@.len() == 4
    }

    /// A decoder whose current frame is the first one in `buffer`: bytes
    /// before the first valid Layer III header are skipped.
    pub fn new(buffer: &[u8]) -> (r: Mp3)
        ensures
            r.valid == find_first(buffer@, 0) is Some,
            r.wf(),
            r.reservoir.bytes@.len() == 0,
            find_first(buffer@, 0) matches Some(p) ==> r.header == header_result(buffer@.skip(p)).unwrap()
                && r.frame_size == frame_size_of(r.header),
            forall|i: int| 0 <= i < NUM_PREV_FRAMES ==> r.prev_frame_size[i] == 0,
    {
        let h = blank_header();
        let mut mp3 = Mp3 {
            valid: false,
            header: h,
            frame_size: frame_size(&h),
            prev_frame_size: [0; NUM_PREV_FRAMES],
            side_info: blank_side_info(),
            main_data: Vec::new(),
            scalefac: vec![blank_scalefactors(), blank_scalefactors(), blank_scalefactors(), blank_scalefactors()],
            samples: vec![vec![0i32; 576], vec![0i32; 576], vec![0i32; 576], vec![0i32; 576]],
            reservoir: Reservoir::new(),
        };
        if let Some(p) = find_sync(buffer, 0) {
            let rest = &buffer[p..buffer.len()];
            proof {
                assert(rest@ =~= buffer@.skip(p as int));
            }
            let _ = mp3.init_header_params(rest);
            mp3.prev_frame_size = [0; NUM_PREV_FRAMES];
        }
        mp3
    }

    /// Forgets the bit reservoir and the sizes of earlier frames, as after a seek.
    pub fn reset(&mut self)
        requires
            old(self).wf(),
        ensures
            final(self).wf(),
            final(self).reservoir.bytes@.len() == 0,
            forall|i: int| 0 <= i < NUM_PREV_FRAMES ==> final(self).prev_frame_size[i] == 0,
            final(self).header == old(self).header,
            final(self).valid == old(self).valid,
    {
        self.reservoir.reset();
        self.prev_frame_size = [0; NUM_PREV_FRAMES];
    }

    /// Takes the header at the start of `buffer` as that of the next frame.
    /// On success the size of the frame before moves to the front of
    /// `prev_frame_size`; on failure the decoder is marked invalid.
    pub fn init_header_params(&mut self, buffer: &[u8]) -> (r: Result<(), DecodeError>)
        requires
            old(self).wf(),
        ensures
            final(self).wf(),
            final(self).valid == r is Ok,
            header_result(buffer@) matches Err(e) ==> r == Err::<(), DecodeError>(e)
                && final(self).header == old(self).header
                && final(self).frame_size == old(self).frame_size
                && final(self).prev_frame_size == old(self).prev_frame_size,
            header_result(buffer@) matches Ok(h) ==> {
                &&& r is Ok
                &&& final(self).header == h
                &&& final(self).frame_size == frame_size_of(h)
                &&& final(self).prev_frame_size[0] == old(self).frame_size
                &&& forall|i: int|
                    1 <= i < NUM_PREV_FRAMES ==> final(self).prev_frame_size[i] == old(
                        self,
                    ).prev_frame_size[i - 1]
            },
            final(self).reservoir == old(self).reservoir,
            final(self).samples == old(self).samples,
            final(self).scalefac == old(self).scalefac,
    {
        match parse_header(buffer) {
            Err(e) => {
                self.valid = false;
                Err(e)
            },
            Ok(h) => {
                let mut i: usize = NUM_PREV_FRAMES - 1;
                let ghost prev = self.prev_frame_size;
                while i > 0
                    invariant
                        i < NUM_PREV_FRAMES,
                        forall|j: int| 0 <= j <= i ==> self.prev_frame_size[j] == prev[j],
                        forall|j: int| i < j < NUM_PREV_FRAMES ==> self.prev_frame_size[j] == prev[j - 1],
                        self.header == old(self).header,
                        self.frame_size == old(self).frame_size,
                        self.reservoir == old(self).reservoir,
                        self.samples == old(self).samples,
                        self.scalefac == old(self).scalefac,
                        self.valid == old(self).valid,
                        prev == old(self).prev_frame_size,
                    decreases i,
                {
                    self.prev_frame_size[i] = self.prev_frame_size[i - 1];
                    i = i - 1;
                }
                self.prev_frame_size[0] = self.frame_size;
                self.header = h;
                self.frame_size = frame_size(&h);
                self.valid = true;
                Ok(())
            },
        }
    }

    /// Reads the side information of the current frame and assembles its
    /// main data; the frame's body joins the bit reservoir whenever the side
    /// information was read.
    #[verifier::rlimit(40)]
    fn load_main_data(&mut self, frame: &[u8]) -> (r: Result<(), DecodeError>)
        requires
            old(self).wf(),
            old(self).header.version == MpegVersion::Mpeg1,
            frame@.len() >= old(self).frame_size,
        ensures
            final(self).wf(),
            final(self).header == old(self).header,
            ({
                let h = old(self).header;
                let mono = h.channel_mode == ChannelMode::Mono;
                let off: int = 4 + if h.crc { 2int } else { 0int };
                let fs = old(self).frame_size as int;
                let kept = old(self).reservoir.bytes@;
                let sr = side_info_result(frame@.subrange(off, fs), mono);
                &&& sr matches Err(e) ==> r == Err::<(), DecodeError>(e)
                &&& sr matches Ok(si) ==> {
                    let body = frame@.subrange(header_side_size(h), fs);
                    let mdb = si.main_data_begin as int;
                    &&& final(self).side_info == si
                    &&& mdb > kept.len() ==> r == Err::<(), DecodeError>(DecodeError::ReservoirUnderflow)
                    &&& mdb <= kept.len() ==> r is Ok && final(self).main_data@ == kept.subrange(
                        kept.len() - mdb,
                        kept.len() as int,
                    ) + body
                }
            }),
            r is Ok ==> forall|gr: int, ch: int|
                0 <= gr < 2 && 0 <= ch < 2 ==> granule_bounded(#[trigger] final(self).side_info.granules[gr][ch]),
            reservoir_after(
                old(self).reservoir,
                final(self).reservoir,
                old(self).header,
                frame@,
                old(self).frame_size as int,
            ),
    {
        let fs = self.frame_size;
        let mono = self.header.channel_mode == ChannelMode::Mono;
        let off: usize = if self.header.crc { 6 } else { 4 };
        proof {
            lemma_mpeg1_frame_size_min(self.header);
            lemma_frame_size_max(self.header);
        }
        let si = match parse_side_info(&frame[off..fs], mono) {
            Err(e) => return Err(e),
            Ok(si) => si,
        };
        self.side_info = si;
        let hss: usize = off + if mono { 17 } else { 32 };
        let body = &frame[hss..fs];
        let md = self.reservoir.main_data(si.main_data_begin as usize, body);
        self.reservoir.push(body);
        match md {
            Err(e) => Err(e),
            Ok(m) => {
                self.main_data = m;
                Ok(())
            },
        }
    }

    /// Decodes the side information and main data of the current frame,
    /// `frame` holding its bytes from the header on: the scalefactors and
    /// the quantized lines of each granule and channel. Only MPEG-1 main
    /// data is decoded. The frame's body joins the bit reservoir whenever
    /// the side information was read.
    #[verifier::rlimit(80)]
    pub fn init_frame_params(&mut self, frame: &[u8]) -> (r: Result<(), DecodeError>)
        requires
            old(self).wf(),
        ensures
            final(self).wf(),
            final(self).header == old(self).header,
            r == frame_result(old(self).header, old(self).reservoir.bytes@, frame@, old(self).frame_size as int),
            reservoir_after(
                old(self).reservoir,
                final(self).reservoir,
                old(self).header,
                frame@,
                old(self).frame_size as int,
            ),
            ({
                let h = old(self).header;
                let mono = h.channel_mode == ChannelMode::Mono;
                let nch: int = if mono { 1 } else { 2 };
                let off: int = 4 + if h.crc { 2int } else { 0int };
                let fs = old(self).frame_size as int;
                let kept = old(self).reservoir.bytes@;
                &&& h.version != MpegVersion::Mpeg1 ==> r == Err::<(), DecodeError>(DecodeError::UnsupportedVersion)
                &&& h.version == MpegVersion::Mpeg1 && frame@.len() < fs ==> r == Err::<(), DecodeError>(
                    DecodeError::EndOfStream,
                )
                &&& h.version == MpegVersion::Mpeg1 && frame@.len() >= fs ==> {
                    let sr = side_info_result(frame@.subrange(off, fs), mono);
                    &&& sr matches Err(e) ==> r == Err::<(), DecodeError>(e)
                    &&& sr matches Ok(si) ==> {
                        let body = frame@.subrange(header_side_size(h), fs);
                        let mdb = si.main_data_begin as int;
                        &&& final(self).side_info == si
                        &&& mdb > kept.len() ==> r == Err::<(), DecodeError>(DecodeError::ReservoirUnderflow)
                        &&& mdb <= kept.len() ==> {
                            &&& final(self).main_data@ == kept.subrange(kept.len() - mdb, kept.len() as int)
                                + body
                            &&& parts_total(si, mono) > 8 * final(self).main_data@.len() ==> r
                                == Err::<(), DecodeError>(DecodeError::BitOverrun)
                            &&& parts_total(si, mono) <= 8 * final(self).main_data@.len() ==> r
                                is Ok
                        }
                    }
                }
                &&& r is Ok ==> final(self).granules_decoded()
            }),
    {
        if self.header.version != MpegVersion::Mpeg1 {
            return Err(DecodeError::UnsupportedVersion);
        }
        if frame.len() < self.frame_size {
            return Err(DecodeError::EndOfStream);
        }
        match self.load_main_data(frame) {
            Err(e) => return Err(e),
            Ok(()) => {},
        }
        let mono = self.header.channel_mode == ChannelMode::Mono;
        let main_len = self.main_data.len();
        let si = self.side_info;
        proof {
            let h = old(self).header;
            let off: int = 4 + if h.crc { 2int } else { 0int };
            let fs = old(self).frame_size as int;
            lemma_mpeg1_frame_size_min(h);
            assert(side_info_result(frame@.subrange(off, fs), mono) == Ok::<SideInfo, DecodeError>(si));
            assert(frame@.subrange(off, fs).len() >= side_info_len(mono));
            assert(main_len == si.main_data_begin + fs - header_side_size(h));
        }
        assert(granule_bounded(si.granules[0][0]));
        assert(granule_bounded(si.granules[0][1]));
        assert(granule_bounded(si.granules[1][0]));
        assert(granule_bounded(si.granules[1][1]));
        let total: usize = if mono {
            (si.granules[0][0].part2_3_length + si.granules[1][0].part2_3_length) as usize
        } else {
            (si.granules[0][0].part2_3_length + si.granules[0][1].part2_3_length
                + si.granules[1][0].part2_3_length + si.granules[1][1].part2_3_length) as usize
        };
        if main_len <= 0x1000 && total > 8 * main_len {
            return Err(DecodeError::BitOverrun);
        }
        self.decode_granules();
        Ok(())
    }

    /// Decodes every granule and channel of the current frame.
    fn decode_granules(&mut self)
        requires
            old(self).wf(),
            forall|gr: int, ch: int|
                0 <= gr < 2 && 0 <= ch < 2 ==> granule_bounded(#[trigger] old(self).side_info.granules[gr][ch]),
        ensures
            final(self).wf(),
            final(self).header == old(self).header,
            final(self).side_info == old(self).side_info,
            final(self).main_data == old(self).main_data,
            final(self).reservoir == old(self).reservoir,
            final(self).granules_decoded(),
    {
        let mono = self.header.channel_mode == ChannelMode::Mono;
        let band = BandIndex::for_rate(self.header.sampling_rate);
        let p00 = self.side_info.granules[0][0].part2_3_length as usize;
        let p01 = self.side_info.granules[0][1].part2_3_length as usize;
        let p10 = self.side_info.granules[1][0].part2_3_length as usize;
        assert(granule_bounded(self.side_info.granules[0][0]));
        assert(granule_bounded(self.side_info.granules[0][1]));
        assert(granule_bounded(self.side_info.granules[1][0]));
        assert(granule_bounded(self.side_info.granules[1][1]));
        let ghost main = self.main_data@;
        let ghost si = self.side_info;
        if mono {
            self.decode_at(0, 0, 0, &band);
            let ghost s00 = self.scalefac@[0];
            self.decode_at(1, 0, p00, &band);
            proof {
                lemma_granule0_ignores_prev(main, 0, si.granules[0][0], si.scfsi[0], old(self).scalefac@[0].long, self.scalefac@[0].long, s00);
            }
        } else {
            self.decode_at(0, 0, 0, &band);
            let ghost s00 = self.scalefac@[0];
            self.decode_at(0, 1, p00, &band);
            let ghost s01 = self.scalefac@[1];
            self.decode_at(1, 0, p00 + p01, &band);
            self.decode_at(1, 1, p00 + p01 + p10, &band);
            proof {
                lemma_granule0_ignores_prev(main, 0, si.granules[0][0], si.scfsi[0], old(self).scalefac@[0].long, self.scalefac@[0].long, s00);
                lemma_granule0_ignores_prev(main, p00 as int, si.granules[0][1], si.scfsi[1], old(self).scalefac@[1].long, self.scalefac@[1].long, s01);
            }
        }
        proof {
            reveal(Mp3::granules_decoded);
        }
    }

    /// Decodes granule `gr`, channel `ch`, whose part 2 and 3 start at `bit`.
    fn decode_at(&mut self, gr: usize, ch: usize, bit: usize, band: &BandIndex)
        requires
            old(self).wf(),
            gr < 2,
            ch < 2,
            bit <= 0x10000,
            granule_bounded(old(self).side_info.granules[gr as int][ch as int]),
            band.long_win@ == long_index_of(old(self).header.sampling_rate),
        ensures
            final(self).wf(),
            final(self).header == old(self).header,
            final(self).side_info == old(self).side_info,
            final(self).main_data == old(self).main_data,
            final(self).reservoir == old(self).reservoir,
            final(self).samples@ == old(self).samples@.update(
                2 * gr + ch,
                final(self).samples@[2 * gr + ch],
            ),
            final(self).scalefac@ == old(self).scalefac@.update(
                2 * gr + ch,
                final(self).scalefac@[2 * gr + ch],
            ),
            ints(final(self).samples@[2 * gr + ch]@) == lines_of(
                old(self).main_data@,
                bit as int,
                old(self).side_info.granules[gr as int][ch as int],
                old(self).side_info.scfsi[ch as int],
                gr as int,
                old(self).header.sampling_rate,
            ),
            final(self).scalefac@[2 * gr + ch].long[21] == 0,
            forall|w: int| 0 <= w < 3 ==> #[trigger] final(self).scalefac@[2 * gr + ch].short[w][12] == 0,
            scalefac_read(
                old(self).main_data@,
                bit as int,
                old(self).side_info.granules[gr as int][ch as int],
                old(self).side_info.scfsi[ch as int],
                gr as int,
                old(self).scalefac@[ch as int].long,
                final(self).scalefac@[2 * gr + ch],
            ),
    {
        let prev = self.scalefac[ch].long;
        let g = self.side_info.granules[gr][ch];
        let share = self.side_info.scfsi[ch];
        let rate = self.header.sampling_rate;
        let (sf, lines) = decode_granule(&self.main_data, bit, &g, share, gr, &prev, band, rate);
        self.scalefac.set(2 * gr + ch, sf);
        self.samples.set(2 * gr + ch, lines);
    }

    pub fn is_valid(&self) -> (r: bool)
        ensures
            r == self.valid,
    {
        self.valid
    }

    pub fn get_mpeg_version(&self) -> (r: MpegVersion)
        ensures
            r == self.header.version,
    {
        self.header.version
    }

    pub fn get_layer(&self) -> (r: u32)
        ensures
            r == self.header.layer,
    {
        self.header.layer as u32
    }

    pub fn get_crc(&self) -> (r: bool)
        ensures
            r == self.header.crc,
    {
        self.header.crc
    }

    pub fn get_bit_rate(&self) -> (r: u32)
        ensures
            r == self.header.bit_rate,
    {
        self.header.bit_rate
    }

    pub fn get_sampling_rate(&self) -> (r: u32)
        ensures
            r == self.header.sampling_rate,
    {
        self.header.sampling_rate
    }

    pub fn get_padding(&self) -> (r: bool)
        ensures
            r == self.header.padding,
    {
        self.header.padding
    }

    pub fn get_channel_mode(&self) -> (r: ChannelMode)
        ensures
            r == self.header.channel_mode,
    {
        self.header.channel_mode
    }

    /// Intensity stereo, then MS stereo.
    pub fn get_mode_extension(&self) -> (r: [bool; 2])
        ensures
            r[0] == self.header.intensity_stereo,
            r[1] == self.header.ms_stereo,
    {
        [self.header.intensity_stereo, self.header.ms_stereo]
    }

    pub fn get_emphasis(&self) -> (r: Emphasis)
        ensures
            r == self.header.emphasis,
    {
        self.header.emphasis
    }

    /// The private, copyright and original bits.
    pub fn get_info(&self) -> (r: [bool; 3])
        ensures
            r[0] == self.header.private_bit,
            r[1] == self.header.copyright,
            r[2] == self.header.original,
    {
        [self.header.private_bit, self.header.copyright, self.header.original]
    }

    pub fn get_frame_size(&self) -> (r: usize)
        ensures
            r == self.frame_size,
    {
        self.frame_size
    }

    pub fn get_header_size(&self) -> (r: usize)
        ensures
            r == 4,
    {
        HEADER_SIZE
    }

    /// Channels of the current frame: one for mono, else two.
    pub fn get_channels(&self) -> (r: usize)
        ensures
            r == if self.header.channel_mode == ChannelMode::Mono { 1usize } else { 2usize },
    {
        if self.header.channel_mode == ChannelMode::Mono { 1 } else { 2 }
    }
}

} // verus!
