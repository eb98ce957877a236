use vstd::prelude::*;

verus! {

/// The errors that the decoder surfaces.
#[derive(Debug, Clone, Copy, PartialEq, Eq, Structural)]
pub enum DecodeError {
    /// Sync bits missing, reserved version or layer, bad bitrate or sampling-rate index.
    InvalidHeader,
    /// A valid header of a layer other than III.
    UnsupportedLayer,
    /// An MPEG-2 or MPEG-2.5 frame: its header is read, its main data is not.
    UnsupportedVersion,
    /// Side information that the frame cannot hold.
    InvalidSideInfo,
    /// `main_data_begin` reaches further back than the kept history.
    ReservoirUnderflow,
    /// A stage would read past the end of the main data.
    BitOverrun,
    /// Fewer than four bytes remain.
    EndOfStream,
}

#[derive(Debug, Clone, Copy, PartialEq, Eq, Structural)]
pub enum MpegVersion {
    Mpeg1,
    Mpeg2,
    Mpeg25,
}

#[derive(Debug, Clone, Copy, PartialEq, Eq, Structural)]
pub enum ChannelMode {
    Stereo,
    JointStereo,
    DualChannel,
    Mono,
}

#[derive(Debug, Clone, Copy, PartialEq, Eq, Structural)]
pub enum Emphasis {
    NoEmphasis,
    MS5015,
    Reserved,
    CCITJ17,
}

pub open spec fn channel_mode_of(v: u8) -> ChannelMode {
    match v & 3u8 {
        0u8 => ChannelMode::Stereo,
        1u8 => ChannelMode::JointStereo,
        2u8 => ChannelMode::DualChannel,
        _ => ChannelMode::Mono,
    }
}

pub open spec fn emphasis_of(v: u8) -> Emphasis {
    match v & 3u8 {
        0u8 => Emphasis::NoEmphasis,
        1u8 => Emphasis::MS5015,
        2u8 => Emphasis::Reserved,
        _ => Emphasis::CCITJ17,
    }
}

/// The two low bits of the value select the mode.
impl From<u8> for ChannelMode {
    fn from(value: u8) -> (r: ChannelMode) {
        match value & 3u8 {
            0u8 => ChannelMode::Stereo,
            1u8 => ChannelMode::JointStereo,
            2u8 => ChannelMode::DualChannel,
            _ => ChannelMode::Mono,
        }
    }
}

impl vstd::std_specs::convert::FromSpecImpl<u8> for ChannelMode {
    open spec fn obeys_from_spec() -> bool {
        true
    }

    open spec fn from_spec(v: u8) -> ChannelMode {
        channel_mode_of(v)
    }
}

/// The two low bits of the value select the emphasis.
impl From<u8> for Emphasis {
    fn from(value: u8) -> (r: Emphasis) {
        match value & 3u8 {
            0u8 => Emphasis::NoEmphasis,
            1u8 => Emphasis::MS5015,
            2u8 => Emphasis::Reserved,
            _ => Emphasis::CCITJ17,
        }
    }
}

impl vstd::std_specs::convert::FromSpecImpl<u8> for Emphasis {
    open spec fn obeys_from_spec() -> bool {
        true
    }

    open spec fn from_spec(v: u8) -> Emphasis {
        emphasis_of(v)
    }
}

/// A decoded four-byte Layer III frame header.
#[derive(Debug, Clone, Copy, PartialEq, Eq, Structural)]
pub struct FrameHeader {
    pub version: MpegVersion,
    pub layer: u8,
    /// Two CRC bytes follow the header.
    pub crc: bool,
    /// Bits per second.
    pub bit_rate: u32,
    /// Samples per second.
    pub sampling_rate: u32,
    pub padding: bool,
    pub channel_mode: ChannelMode,
    pub intensity_stereo: bool,
    pub ms_stereo: bool,
    pub emphasis: Emphasis,
    pub private_bit: bool,
    pub copyright: bool,
    pub original: bool,
}

/// Kilobits per second of bitrate index `i` (1..=14), Layer III.
pub open spec fn kbps_of(version: MpegVersion, i: u8) -> u32 {
    if version == MpegVersion::Mpeg1 {
        if i == 1 { 32 } else if i == 2 { 40 } else if i == 3 { 48 } else if i == 4 { 56 }
        else if i == 5 { 64 } else if i == 6 { 80 } else if i == 7 { 96 } else if i == 8 { 112 }
        else if i == 9 { 128 } else if i == 10 { 160 } else if i == 11 { 192 }
        else if i == 12 { 224 } else if i == 13 { 256 } else { 320 }
    } else {
        if i == 1 { 8 } else if i == 2 { 16 } else if i == 3 { 24 } else if i == 4 { 32 }
        else if i == 5 { 40 } else if i == 6 { 48 } else if i == 7 { 56 } else if i == 8 { 64 }
        else if i == 9 { 80 } else if i == 10 { 96 } else if i == 11 { 112 }
        else if i == 12 { 128 } else if i == 13 { 144 } else { 160 }
    }
}

/// Samples per second of sampling-rate index `i` (0..=2).
pub open spec fn rate_of(version: MpegVersion, i: u8) -> u32 {
    let base: u32 = if i == 0 { 44100 } else if i == 1 { 48000 } else { 32000 };
    match version {
        MpegVersion::Mpeg1 => base,
        MpegVersion::Mpeg2 => (base / 2) as u32,
        MpegVersion::Mpeg25 => (base / 4) as u32,
    }
}

pub open spec fn version_bits(h: Seq<u8>) -> u8 {
    (h[1] >> 3u8) & 3u8
}

pub open spec fn layer_bits(h: Seq<u8>) -> u8 {
    (h[1] >> 1u8) & 3u8
}

pub open spec fn bitrate_index(h: Seq<u8>) -> u8 {
    h[2] >> 4u8
}

pub open spec fn rate_index(h: Seq<u8>) -> u8 {
    (h[2] >> 2u8) & 3u8
}

pub open spec fn version_of(b: u8) -> MpegVersion {
    if b == 3 {
        MpegVersion::Mpeg1
    } else if b == 2 {
        MpegVersion::Mpeg2
    } else {
        MpegVersion::Mpeg25
    }
}

/// The header that the first four bytes `h` describe, once they are known valid.
pub open spec fn header_fields(h: Seq<u8>) -> FrameHeader {
    let version = version_of(version_bits(h));
    FrameHeader {
        version,
        layer: (4 - layer_bits(h)) as u8,
        crc: h[1] & 1u8 == 0,
        bit_rate: (kbps_of(version, bitrate_index(h)) * 1000) as u32,
        sampling_rate: rate_of(version, rate_index(h)),
        padding: (h[2] >> 1u8) & 1u8 == 1,
        channel_mode: channel_mode_of(h[3] >> 6u8),
        intensity_stereo: (h[3] >> 4u8) & 1u8 == 1,
        ms_stereo: (h[3] >> 5u8) & 1u8 == 1,
        emphasis: emphasis_of(h[3] & 3u8),
        private_bit: h[2] & 1u8 == 1,
        copyright: (h[3] >> 3u8) & 1u8 == 1,
        original: (h[3] >> 2u8) & 1u8 == 1,
    }
}

/// The sync pattern: eleven set bits.
pub open spec fn has_sync(h: Seq<u8>) -> bool {
    h.len() >= 2 && h[0] == 0xFF && h[1] >= 0xE0
}

/// The outcome of decoding the header at the start of `h`.
pub open spec fn header_result(h: Seq<u8>) -> Result<FrameHeader, DecodeError> {
    if h.len() < 4 {
        Err(DecodeError::EndOfStream)
    } else if !has_sync(h) || version_bits(h) == 1 || layer_bits(h) == 0
        || bitrate_index(h) == 0 || bitrate_index(h) == 15 || rate_index(h) == 3 {
        Err(DecodeError::InvalidHeader)
    } else if layer_bits(h) != 1 {
        Err(DecodeError::UnsupportedLayer)
    } else {
        Ok(header_fields(h))
    }
}

/// Samples in one frame of `version`, Layer III.
pub open spec fn samples_per_frame(version: MpegVersion) -> nat {
    if version == MpegVersion::Mpeg1 { 1152 } else { 576 }
}

/// Bytes of a frame with header `h`, header included.
pub open spec fn frame_size_of(h: FrameHeader) -> nat {
    (samples_per_frame(h.version) / 8) * (h.bit_rate as nat) / (h.sampling_rate as nat)
        + if h.padding { 1nat } else { 0nat }
}

/// The ranges that every decoded header keeps.
pub open spec fn header_wf(h: FrameHeader) -> bool {
    &&& 8000 <= h.sampling_rate <= 48000
    &&& 8000 <= h.bit_rate <= 320000
    &&& h.version == MpegVersion::Mpeg1 ==> h.sampling_rate >= 32000 && h.bit_rate >= 32000
    &&& h.version != MpegVersion::Mpeg1 ==> h.bit_rate <= 160000
}

/// An MPEG-1 frame has room for its header and side information.
pub proof fn lemma_mpeg1_frame_size_min(h: FrameHeader)
    requires
        header_wf(h),
        h.version == MpegVersion::Mpeg1,
    ensures
        frame_size_of(h) >= 96,
{
    let br = h.bit_rate as nat;
    let fs = h.sampling_rate as nat;
    assert(144 * br >= fs * 96) by (nonlinear_arith)
        requires
            br >= 32000,
            fs <= 48000,
    ;
    vstd::arithmetic::div_mod::lemma_div_is_ordered((fs * 96) as int, (144 * br) as int, fs as int);
    vstd::arithmetic::div_mod::lemma_div_multiples_vanish(96, fs as int);
}

/// No frame is longer than 1441 bytes.
pub proof fn lemma_frame_size_max(h: FrameHeader)
    requires
        header_wf(h),
    ensures
        frame_size_of(h) <= 1441,
{
    let a = samples_per_frame(h.version) / 8;
    lemma_frame_bytes_bound(a, h.bit_rate as nat, h.sampling_rate as nat);
}

proof fn lemma_frame_bytes_bound(a: nat, br: nat, fs: nat)
    requires
        (a == 144 && br <= 320000 && fs >= 32000) || (a == 72 && br <= 160000 && fs >= 8000),
    ensures
        a * br / fs <= 1440,
{
    assert(a * br <= 46080000) by (nonlinear_arith)
        requires
            (a == 144 && br <= 320000) || (a == 72 && br <= 160000),
    ;
    if a == 144 {
        assert(a * br / fs <= a * br / 32000) by (nonlinear_arith)
            requires
                fs >= 32000,
        ;
    } else {
        assert(a * br / fs <= a * br / 8000) by (nonlinear_arith)
            requires
                fs >= 8000,
        ;
    }
}

/// Bytes of the frame that `h` heads, header included; for MPEG-1 this is
/// `144 * bit_rate / sampling_rate`, plus one byte of padding.
pub fn frame_size(h: &FrameHeader) -> (r: usize)
    requires
        header_wf(*h),
    ensures
        r == frame_size_of(*h),
        h.version == MpegVersion::Mpeg1 ==> r == 144 * (h.bit_rate as nat) / (h.sampling_rate as nat)
            + if h.padding { 1nat } else { 0nat },
        r <= 1441,
{
    let per_frame: u64 = if h.version == MpegVersion::Mpeg1 { 1152 } else { 576 };
    assert(per_frame / 8 * (h.bit_rate as u64) <= 144 * 320000) by (nonlinear_arith)
        requires
            per_frame <= 1152,
            h.bit_rate <= 320000,
    ;
    let bytes = per_frame / 8 * (h.bit_rate as u64) / (h.sampling_rate as u64);
    proof {
        lemma_frame_bytes_bound((per_frame / 8) as nat, h.bit_rate as nat, h.sampling_rate as nat);
    }
    let padding: u64 = if h.padding { 1 } else { 0 };
    (bytes + padding) as usize
}

fn kbps(version: MpegVersion, i: u8) -> (r: u32)
    requires
        1 <= i <= 14,
    ensures
        r == kbps_of(version, i),
{
    let table: [u32; 14] = if version == MpegVersion::Mpeg1 {
        [32, 40, 48, 56, 64, 80, 96, 112, 128, 160, 192, 224, 256, 320]
    } else {
        [8, 16, 24, 32, 40, 48, 56, 64, 80, 96, 112, 128, 144, 160]
    };
    table[(i - 1) as usize]
}

fn rate(version: MpegVersion, i: u8) -> (r: u32)
    requires
        i <= 2,
    ensures
        r == rate_of(version, i),
{
    let base: u32 = if i == 0 { 44100 } else if i == 1 { 48000 } else { 32000 };
    match version {
        MpegVersion::Mpeg1 => base,
        MpegVersion::Mpeg2 => base / 2,
        MpegVersion::Mpeg25 => base / 4,
    }
}

/// Decodes the frame header in the first four bytes of `h`.
pub fn parse_header(h: &[u8]) -> (r: Result<FrameHeader, DecodeError>)
    ensures
        r == header_result(h@),
        r matches Ok(hd) ==> header_wf(hd),
{
    if h.len() < 4 {
        return Err(DecodeError::EndOfStream);
    }
    let vb = (h[1] >> 3u8) & 3u8;
    let lb = (h[1] >> 1u8) & 3u8;
    let bi = h[2] >> 4u8;
    let ri = (h[2] >> 2u8) & 3u8;
    if !(h[0] == 0xFF && h[1] >= 0xE0) || vb == 1 || lb == 0 || bi == 0 || bi == 15 || ri == 3 {
        return Err(DecodeError::InvalidHeader);
    }
    if lb != 1 {
        return Err(DecodeError::UnsupportedLayer);
    }
    let h2 = h[2];
    assert(h2 >> 4u8 <= 15) by (bit_vector);
    assert((h2 >> 2u8) & 3u8 <= 3) by (bit_vector);
    let version = if vb == 3 {
        MpegVersion::Mpeg1
    } else if vb == 2 {
        MpegVersion::Mpeg2
    } else {
        MpegVersion::Mpeg25
    };
    let k = kbps(version, bi);
    Ok(FrameHeader {
        version,
        layer: 4 - lb,
        crc: h[1] & 1u8 == 0,
        bit_rate: k * 1000,
        sampling_rate: rate(version, ri),
        padding: (h[2] >> 1u8) & 1u8 == 1,
        channel_mode: ChannelMode::from(h[3] >> 6u8),
        intensity_stereo: (h[3] >> 4u8) & 1u8 == 1,
        ms_stereo: (h[3] >> 5u8) & 1u8 == 1,
        emphasis: Emphasis::from(h[3] & 3u8),
        private_bit: h[2] & 1u8 == 1,
        copyright: (h[3] >> 3u8) & 1u8 == 1,
        original: (h[3] >> 2u8) & 1u8 == 1,
    })
}

} // verus!
