use mp3dec::bits::{char_to_int, get_bits, get_bits_inc};
use mp3dec::header::{frame_size, parse_header, ChannelMode, DecodeError, Emphasis, MpegVersion};
use mp3dec::huffman::unpack_samples;
use mp3dec::layout::{find_sync, interleave, is_inverted, reorder, uses_ms_stereo};
use mp3dec::mp3::Mp3;
use mp3dec::reservoir::Reservoir;
use mp3dec::side_info::parse_side_info;
use mp3dec::stream::{FrameStatus, Mp3Stream};
use mp3dec::tables::{big_value_table, count1_table, BandIndex, BandWidth};

fn mono_frame(side: &[u8]) -> Vec<u8> {
    // MPEG-1 Layer III, no CRC, 128 kbps, 44.1 kHz, no padding, mono: 417 bytes.
    let mut f = vec![0xFF, 0xFB, 0x90, 0xC0];
    f.extend_from_slice(side);
    f.resize(417, 0);
    f
}

#[test]
fn frame_size_48k_128k() {
    let h = parse_header(&[0xFF, 0xFB, 0x94, 0x00]).unwrap();
    assert_eq!(h.sampling_rate, 48000);
    assert_eq!(h.bit_rate, 128000);
    assert_eq!(frame_size(&h), 384);
    let h = parse_header(&[0xFF, 0xFB, 0x96, 0x00]).unwrap();
    assert!(h.padding);
    assert_eq!(frame_size(&h), 385);
}

#[test]
fn frame_size_44k_192k() {
    let h = parse_header(&[0xFF, 0xFB, 0xB0, 0x00]).unwrap();
    assert_eq!(h.sampling_rate, 44100);
    assert_eq!(h.bit_rate, 192000);
    assert_eq!(frame_size(&h), 626);
    let h = parse_header(&[0xFF, 0xFB, 0xB2, 0x00]).unwrap();
    assert_eq!(frame_size(&h), 627);
}

#[test]
fn frame_size_mpeg2_uses_576_samples() {
    // MPEG-2 Layer III, 64 kbps (index 8), 24 kHz: 72 * 64000 / 24000 = 192.
    let h = parse_header(&[0xFF, 0xF3, 0x84, 0x00]).unwrap();
    assert_eq!(h.version, MpegVersion::Mpeg2);
    assert_eq!(h.bit_rate, 64000);
    assert_eq!(h.sampling_rate, 24000);
    assert_eq!(frame_size(&h), 192);
}

#[test]
fn bitrate_index_nine_is_128k() {
    let h = parse_header(&[0xFF, 0xFB, 0x90, 0x00]).unwrap();
    assert_eq!(h.bit_rate, 128000);
    assert_eq!(h.layer, 3);
    assert!(!h.crc);
    let with_crc = parse_header(&[0xFF, 0xFA, 0x90, 0x00]).unwrap();
    assert!(with_crc.crc);
}

#[test]
fn header_fields_of_last_byte() {
    let h = parse_header(&[0xFF, 0xFB, 0x91, 0x6D]).unwrap();
    assert_eq!(h.channel_mode, ChannelMode::JointStereo);
    assert!(h.ms_stereo);
    assert!(!h.intensity_stereo);
    assert!(h.copyright);
    assert!(h.original);
    assert!(h.private_bit);
    assert_eq!(h.emphasis, Emphasis::MS5015);
    assert_eq!(ChannelMode::from(3u8), ChannelMode::Mono);
    assert_eq!(Emphasis::from(3u8), Emphasis::CCITJ17);
}

#[test]
fn ms_stereo_runs_only_with_its_bit() {
    let on = parse_header(&[0xFF, 0xFB, 0x90, 0x60]).unwrap();
    assert!(uses_ms_stereo(&on));
    let off = parse_header(&[0xFF, 0xFB, 0x90, 0x40]).unwrap();
    assert!(!uses_ms_stereo(&off));
    let stereo = parse_header(&[0xFF, 0xFB, 0x90, 0x20]).unwrap();
    assert!(!uses_ms_stereo(&stereo));
}

#[test]
fn header_errors() {
    assert_eq!(parse_header(&[0xFF, 0xFB, 0x90]), Err(DecodeError::EndOfStream));
    assert_eq!(parse_header(&[0x12, 0xFB, 0x90, 0x00]), Err(DecodeError::InvalidHeader));
    assert_eq!(parse_header(&[0xFF, 0xFB, 0x00, 0x00]), Err(DecodeError::InvalidHeader));
    assert_eq!(parse_header(&[0xFF, 0xFB, 0xF0, 0x00]), Err(DecodeError::InvalidHeader));
    assert_eq!(parse_header(&[0xFF, 0xFB, 0x9C, 0x00]), Err(DecodeError::InvalidHeader));
    assert_eq!(parse_header(&[0xFF, 0xEB, 0x90, 0x00]), Err(DecodeError::InvalidHeader));
    assert_eq!(parse_header(&[0xFF, 0xFD, 0x90, 0x00]), Err(DecodeError::UnsupportedLayer));
}

#[test]
fn get_bits_reads_big_endian() {
    let buf = [0b1010_1100u8, 0xFF, 0x01];
    assert_eq!(get_bits(&buf, 2, 7), 0b10110);
    assert_eq!(get_bits(&buf, 4, 12), 0xCF);
    assert_eq!(get_bits(&buf, 0, 0), 0);
    assert_eq!(get_bits(&buf, 0, 24), 0xACFF01);
    assert_eq!(get_bits(&buf, 20, 28), 0x10);
}

#[test]
fn get_bits_inc_advances_by_count() {
    let buf = [0xF0u8, 0x0F];
    let mut at = 2usize;
    assert_eq!(get_bits_inc(&buf, &mut at, 4), 0b1100);
    assert_eq!(at, 6);
    assert_eq!(get_bits_inc(&buf, &mut at, 0), 0);
    assert_eq!(at, 6);
}

#[test]
fn synchsafe_integer() {
    assert_eq!(char_to_int(&[0x00, 0x00, 0x02, 0x01]), 257);
    assert_eq!(char_to_int(&[0x7F, 0x7F, 0x7F, 0x7F]), 0x0FFF_FFFF);
    assert_eq!(char_to_int(&[]), 0);
}

#[test]
fn reservoir_without_back_pointer_is_body() {
    let mut r = Reservoir::new();
    r.push(&[9, 9, 9]);
    let body = vec![1u8, 2, 3, 4];
    assert_eq!(r.main_data(0, &body).unwrap(), body);
}

#[test]
fn reservoir_prepends_tail_of_previous_body() {
    let mut r = Reservoir::new();
    let first: Vec<u8> = (0..300u32).map(|i| (i % 251) as u8).collect();
    r.push(&first);
    let second = vec![7u8; 50];
    let md = r.main_data(200, &second).unwrap();
    assert_eq!(md.len(), 250);
    assert_eq!(&md[..200], &first[100..]);
    assert_eq!(&md[200..], &second[..]);
}

#[test]
fn reservoir_underflow_and_ring_of_nine() {
    let mut r = Reservoir::new();
    assert_eq!(r.main_data(1, &[1]), Err(DecodeError::ReservoirUnderflow));
    for k in 0..10u8 {
        r.push(&[k; 10]);
    }
    assert_eq!(r.bytes.len(), 90);
    assert_eq!(r.bytes[0], 1);
    assert_eq!(r.main_data(91, &[]), Err(DecodeError::ReservoirUnderflow));
    r.reset();
    assert!(r.bytes.is_empty());
}

#[test]
fn resync_skips_garbage() {
    let mut s = vec![0x12u8, 0x34, 0xFF];
    s.extend_from_slice(&[0xFF, 0xFB, 0x90, 0x00]);
    assert_eq!(find_sync(&s, 0), Some(3));
    assert_eq!(find_sync(&s, 4), None);
}

#[test]
fn side_info_fields() {
    // main_data_begin = 0x1FF, then for granule 0 part2_3_length = 0xABC.
    let mut side = vec![0u8; 17];
    side[0] = 0xFF;
    side[1] = 0x80;
    // mono: 9 + 5 private + 4 scfsi = bit 18 starts granule 0.
    side[2] = 0x2A; // bits 16..24: 0010 1010 -> part2_3 high bits 1010 at 18..22
    let si = parse_side_info(&side, true).unwrap();
    assert_eq!(si.main_data_begin, 0x1FF);
    assert_eq!(si.granules[0][0].part2_3_length >> 8, 0b1010);
    assert_eq!(parse_side_info(&side[..16], true).map(|_| ()), Err(DecodeError::EndOfStream));
}

#[test]
fn side_info_rejects_switching_with_block_type_zero() {
    let mut side = vec![0u8; 17];
    // granule 0 window_switching bit at 18 + 33 = 51: byte 6, bit 3.
    side[6] = 0x10;
    assert_eq!(parse_side_info(&side, true).map(|_| ()), Err(DecodeError::InvalidSideInfo));
    // block type 2 after it (bits 52..54).
    side[6] = 0x18;
    let si = parse_side_info(&side, true).unwrap();
    assert!(si.granules[0][0].window_switching);
    assert_eq!(si.granules[0][0].block_type, 2);
    assert_eq!(si.granules[0][0].region0_count, 8);
    assert_eq!(si.granules[0][0].region1_count, 12);
}

#[test]
fn mono_silence_decodes_to_zero_lines() {
    let frame = mono_frame(&[0u8; 17]);
    let mut mp3 = Mp3::new(&frame);
    assert!(mp3.is_valid());
    assert_eq!(mp3.get_frame_size(), 417);
    assert_eq!(mp3.get_channels(), 1);
    for _ in 0..3 {
        assert_eq!(mp3.init_frame_params(&frame), Ok(()));
        assert!(mp3.samples[0].iter().all(|&v| v == 0));
        assert!(mp3.samples[2].iter().all(|&v| v == 0));
        let pcm = interleave(&mp3.samples, 1);
        assert_eq!(pcm.len(), 1152);
        assert!(pcm.iter().all(|&v| v == 0));
        assert_eq!(mp3.init_header_params(&frame), Ok(()));
    }
    assert_eq!(mp3.prev_frame_size[0], 417);
    assert_eq!(mp3.main_data.len(), 417 - 21);
}

#[test]
fn frame_errors() {
    let frame = mono_frame(&[0u8; 17]);
    let mut mp3 = Mp3::new(&frame);
    assert_eq!(mp3.init_frame_params(&frame[..100]), Err(DecodeError::EndOfStream));
    // main_data_begin = 1 with an empty reservoir.
    let mut side = [0u8; 17];
    side[0] = 0x00;
    side[1] = 0x80;
    let frame = mono_frame(&side);
    let mut fresh = Mp3::new(&frame);
    assert_eq!(fresh.init_frame_params(&frame), Err(DecodeError::ReservoirUnderflow));
    // part2_3_length of 4095 bits with 396 bytes of main data.
    let mut side = [0u8; 17];
    side[2] = 0x3F;
    side[3] = 0xFF;
    side[4] = 0xC0;
    let frame = mono_frame(&side);
    let mut over = Mp3::new(&frame);
    assert_eq!(over.init_frame_params(&frame), Err(DecodeError::BitOverrun));
    let mpeg2 = [0xFF, 0xF3, 0x84, 0xC0];
    let mut m2 = Mp3::new(&mpeg2);
    assert!(m2.is_valid());
    assert_eq!(m2.init_frame_params(&mpeg2), Err(DecodeError::UnsupportedVersion));
    let mut bad = Mp3::new(&[0, 0, 0, 0]);
    assert!(!bad.is_valid());
    assert_eq!(bad.init_header_params(&[0xFF, 0xFB, 0x90, 0x00]), Ok(()));
    assert!(bad.is_valid());
}

#[test]
fn mp3_getters() {
    let mp3 = Mp3::new(&[0xFF, 0xFB, 0x92, 0x64]);
    assert_eq!(mp3.get_mpeg_version(), MpegVersion::Mpeg1);
    assert_eq!(mp3.get_layer(), 3);
    assert!(!mp3.get_crc());
    assert_eq!(mp3.get_bit_rate(), 128000);
    assert_eq!(mp3.get_sampling_rate(), 44100);
    assert!(mp3.get_padding());
    assert_eq!(mp3.get_channel_mode(), ChannelMode::JointStereo);
    assert_eq!(mp3.get_mode_extension(), [false, true]);
    assert_eq!(mp3.get_emphasis(), Emphasis::NoEmphasis);
    assert_eq!(mp3.get_info(), [false, false, true]);
    assert_eq!(mp3.get_frame_size(), 418);
    assert_eq!(mp3.get_header_size(), 4);
    assert_eq!(mp3.get_channels(), 2);
}

#[test]
fn huffman_pair_with_sign() {
    let t1 = big_value_table(1);
    let t0 = big_value_table(0);
    let q = count1_table(1);
    // "01" codes (1, 0) in table 1, then the sign bit 1 makes it -1.
    let buf = [0b0110_0000u8];
    let lines = unpack_samples(&buf, 0, 3, 2, &t1, &t0, &t0, 576, 576, &q);
    assert_eq!(lines.len(), 576);
    assert_eq!(lines[0], -1);
    assert!(lines[1..].iter().all(|&v| v == 0));
}

#[test]
fn huffman_count1_table_b() {
    let t0 = big_value_table(0);
    let q = count1_table(1);
    // Table B: "1010" codes 0101, so lines 1 and 3 are set; sign bits 0, 1.
    let buf = [0b1010_0100u8];
    let lines = unpack_samples(&buf, 0, 6, 0, &t0, &t0, &t0, 576, 576, &q);
    assert_eq!(&lines[..5], &[0, 1, 0, -1, 0]);
}

#[test]
fn huffman_overrun_drops_the_pair() {
    let t1 = big_value_table(1);
    let q = count1_table(0);
    let buf = [0b0110_0000u8];
    let lines = unpack_samples(&buf, 0, 2, 2, &t1, &t1, &t1, 576, 576, &q);
    assert!(lines.iter().all(|&v| v == 0));
}

#[test]
fn band_tables() {
    let bi = BandIndex::for_rate(48000);
    assert_eq!(bi.long_win[9], 42);
    assert_eq!(bi.short_win[13], 192);
    let bw = BandWidth::for_rate(44100);
    assert_eq!(bw.short_win[5], 8);
    assert_eq!(bw.long_win.len(), 22);
    let t = big_value_table(24);
    assert_eq!(t.linbits, 4);
    assert_eq!(t.dim, 16);
}

#[test]
fn reorder_short_lines() {
    let idx = BandIndex::for_rate(44100).short_win;
    let samples: Vec<u32> = (0..576).collect();
    let r = reorder(&samples, &idx, 9999);
    assert_eq!(r[0], 0);
    assert_eq!(r[1], 1);
    assert_eq!(r[4], 12);
    assert_eq!(r[6], 4);
    assert_eq!(r[12], 8);
    assert_eq!(r[575], 9999);
}

#[test]
fn interleave_stereo() {
    let samples: Vec<Vec<i32>> = (0..4).map(|k| vec![k as i32; 576]).collect();
    let pcm = interleave(&samples, 2);
    assert_eq!(pcm.len(), 2304);
    assert_eq!(&pcm[..4], &[0, 1, 0, 1]);
    assert_eq!(&pcm[1152..1156], &[2, 3, 2, 3]);
}

#[test]
fn inverted_lines() {
    assert!(is_inverted(19));
    assert!(!is_inverted(18));
    assert!(!is_inverted(1));
    assert!(is_inverted(18 * 31 + 17));
    assert!(!is_inverted(576));
}

#[test]
fn stream_resyncs_after_garbage() {
    let mut s = vec![0x12u8, 0x34, 0x56];
    s.extend_from_slice(&mono_frame(&[0u8; 17]));
    s.extend_from_slice(&mono_frame(&[0u8; 17]));
    let mut st = Mp3Stream::new(s).unwrap();
    assert_eq!(st.pos, 3);
    assert_eq!(st.next_frame(), Ok(FrameStatus::Decoded));
    assert_eq!(st.pos, 3 + 417);
    assert!(st.core.samples[0].iter().all(|&v| v == 0));
    assert_eq!(st.next_frame(), Ok(FrameStatus::Decoded));
    assert_eq!(st.next_frame(), Err(DecodeError::EndOfStream));
}

#[test]
fn stream_gives_silence_on_underflow() {
    let mut side = [0u8; 17];
    side[1] = 0x80;
    let mut s = vec![b'I', b'D', b'3', 3, 0, 0, 0, 0, 0, 0];
    s.extend_from_slice(&mono_frame(&side));
    let mut st = Mp3Stream::new(s).unwrap();
    assert_eq!(st.pos, 10);
    assert_eq!(st.next_frame(), Ok(FrameStatus::Silent));
    st.reset();
    assert!(st.core.reservoir.bytes.is_empty());
    assert_eq!(Mp3Stream::new(vec![1, 2, 3, 4, 5]).map(|_| ()), Err(DecodeError::InvalidHeader));
}

fn set_bits(buf: &mut [u8], pos: usize, n: usize, val: u32) {
    for k in 0..n {
        let bit = (val >> (n - 1 - k)) & 1;
        let p = pos + k;
        if bit == 1 {
            buf[p / 8] |= 0x80 >> (p % 8);
        } else {
            buf[p / 8] &= !(0x80 >> (p % 8));
        }
    }
}

fn one_pair_frame() -> Vec<u8> {
    let mut side = [0u8; 17];
    // Granule 0 of the mono frame starts at bit 18.
    set_bits(&mut side, 18, 12, 3);
    set_bits(&mut side, 30, 9, 1);
    set_bits(&mut side, 18 + 34, 5, 1);
    let mut frame = mono_frame(&side);
    // "01" codes (1, 0) in table 1; the sign bit 1 makes it -1.
    frame[21] = 0b0110_0000;
    frame
}

#[test]
fn decodes_one_pair_and_replays_after_reset() {
    let frame = one_pair_frame();
    let mut mp3 = Mp3::new(&frame);
    assert_eq!(mp3.init_frame_params(&frame), Ok(()));
    assert_eq!(mp3.side_info.granules[0][0].part2_3_length, 3);
    assert_eq!(mp3.side_info.granules[0][0].big_value, 1);
    assert_eq!(mp3.side_info.granules[0][0].table_select, [1, 0, 0]);
    assert_eq!(mp3.samples[0][0], -1);
    assert!(mp3.samples[0][1..].iter().all(|&v| v == 0));
    let first = mp3.samples.clone();
    mp3.reset();
    assert_eq!(mp3.init_header_params(&frame), Ok(()));
    assert_eq!(mp3.init_frame_params(&frame), Ok(()));
    assert_eq!(mp3.samples, first);
}

#[test]
fn mp3_new_skips_leading_garbage() {
    let frame = mono_frame(&[0u8; 17]);
    let mut s = vec![0x12u8, 0x34, 0x56];
    s.extend_from_slice(&frame);
    let a = Mp3::new(&s);
    let b = Mp3::new(&frame);
    assert!(a.is_valid());
    assert_eq!(a.header, b.header);
    assert_eq!(a.get_frame_size(), 417);
    assert!(!Mp3::new(&[0x12, 0x34, 0x56]).is_valid());
}

#[test]
fn reservoir_keeps_body_after_underflow() {
    let mut side = [0u8; 17];
    side[1] = 0x80;
    let frame = mono_frame(&side);
    let mut mp3 = Mp3::new(&frame);
    assert_eq!(mp3.init_frame_params(&frame), Err(DecodeError::ReservoirUnderflow));
    assert_eq!(mp3.reservoir.bytes.len(), 417 - 21);
    assert_eq!(mp3.init_header_params(&frame), Ok(()));
    assert_eq!(mp3.init_frame_params(&frame), Ok(()));
    assert_eq!(mp3.main_data.len(), 1 + 417 - 21);
}

#[test]
fn requantizer_exponents_walk_the_bands() {
    let frame = one_pair_frame();
    let mut mp3 = Mp3::new(&frame);
    assert_eq!(mp3.init_frame_params(&frame), Ok(()));
    let mut g = mp3.side_info.granules[0][0];
    g.global_gain = 220;
    g.preflag = 1;
    let mut sf = mp3.scalefac[0];
    sf.long[0] = 3;
    sf.long[11] = 2;
    let index = BandIndex::for_rate(44100);
    let width = BandWidth::for_rate(44100);
    let pre = mp3dec::tables::pretab();
    let e = mp3dec::requant::line_exponents(&g, &sf, &index.long_win, &width.short_win, &pre);
    assert_eq!(e.len(), 576);
    assert_eq!(e[0], (10, 3));
    assert_eq!(e[4], (10, 0));
    assert_eq!(e[52], (10, 0));
    // Line 62 starts band 11, whose pretab is 1.
    assert_eq!(e[62], (10, 3));
    g.block_type = 2;
    g.subblock_gain = [0, 1, 2];
    sf.short[1][0] = 5;
    let e = mp3dec::requant::line_exponents(&g, &sf, &index.long_win, &width.short_win, &pre);
    assert_eq!(e[0], (10, 0));
    assert_eq!(e[4], (2, 5));
    assert_eq!(e[8], (-6, 0));
}

#[test]
fn huffman_table_seven_pair() {
    let t7 = big_value_table(7);
    let q = count1_table(0);
    // "00100" codes (2, 1) in table 7; sign bits 1 then 0.
    let buf = [0b0010_0100u8];
    let lines = unpack_samples(&buf, 0, 7, 2, &t7, &t7, &t7, 576, 576, &q);
    assert_eq!(&lines[..3], &[-2, 1, 0]);
}

#[test]
fn huffman_escape_bits_of_table_sixteen() {
    let t16 = big_value_table(16);
    assert_eq!(t16.linbits, 1);
    let q = count1_table(0);
    // "000001100" codes (15, 0); one escape bit 1 makes 16; sign bit 0.
    let buf = [0b0000_0110u8, 0b0100_0000];
    let lines = unpack_samples(&buf, 0, 11, 2, &t16, &t16, &t16, 576, 576, &q);
    assert_eq!(&lines[..3], &[16, 0, 0]);
}

#[test]
fn huffman_escape_bits_of_table_twenty_four() {
    let t24 = big_value_table(24);
    let q = count1_table(0);
    // "00101010" codes (1, 15); sign 0; four escape bits 0011 make 18; sign 1.
    let buf = [0b0010_1010u8, 0b0001_1100];
    let lines = unpack_samples(&buf, 0, 14, 2, &t24, &t24, &t24, 576, 576, &q);
    assert_eq!(&lines[..3], &[1, -18, 0]);
    assert_eq!(big_value_table(31).codes, t24.codes);
    assert_eq!(big_value_table(31).linbits, 13);
}
