use mp3dec::id3::Id3;
use mp3dec::xing::Xing;

fn tag(flags: u8) -> Vec<u8> {
    let mut t = vec![b'I', b'D', b'3', 3, 0, flags, 0, 0, 0, 20];
    t.extend_from_slice(b"TIT2");
    t.extend_from_slice(&[0, 0, 0, 5, 0, 0]);
    t.extend_from_slice(b"Hello");
    t.extend_from_slice(&[0xFF, 0xFB, 0x90, 0x00]);
    t
}

#[test]
fn id3_reads_header_and_frames() {
    let id3 = Id3::new(tag(0));
    assert!(id3.is_valid());
    assert_eq!(id3.get_id3_version(), "2.3.0");
    assert_eq!(id3.get_id3_offset(), 20);
    assert_eq!(id3.get_id3_extended_header_size(), 0);
    assert_eq!(id3.get_id3_flags(), [false; 4]);
    assert_eq!(id3.get_id3_fields_length(), 1);
    let f = id3.get_id3_fields();
    assert_eq!(f[0], vec!["TIT2".to_string()]);
    assert_eq!(f[1], vec!["Hello".to_string()]);
    assert_eq!(id3.get_skip_length(), 30);
}

#[test]
fn id3_footer_flag_and_version() {
    let mut t = tag(0x10);
    t[3] = 4;
    t[4] = 12;
    let id3 = Id3::new(t);
    assert!(id3.is_valid());
    assert_eq!(id3.get_id3_version(), "2.4.12");
    assert_eq!(id3.get_id3_flags(), [true, false, false, false]);
    assert_eq!(id3.get_skip_length(), 40);
}

#[test]
fn id3_rejects_low_flag_bits_and_missing_magic() {
    let id3 = Id3::new(tag(0x01));
    assert!(!id3.is_valid());
    assert_eq!(id3.get_id3_fields_length(), 0);
    assert_eq!(id3.get_skip_length(), 0);
    let none = Id3::new(vec![0xFF, 0xFB, 0x90, 0x00]);
    assert!(!none.is_valid());
}

#[test]
fn xing_reads_announced_fields() {
    let mut b = vec![0u8; 36];
    b.extend_from_slice(b"Xing");
    b.extend_from_slice(&[0, 0, 0, 0x0F]);
    b.extend_from_slice(&[0, 0, 0x01, 0x02]);
    b.extend_from_slice(&[0, 0, 0x10, 0x00]);
    b.extend_from_slice(&[0u8; 100]);
    b.extend_from_slice(&[0, 0, 0, 57]);
    let x = Xing::new(&b, 0);
    assert_eq!(x.get_frame_quantity(), Some(130));
    assert_eq!(x.get_byte_quantity(), Some(0x800));
    assert_eq!(x.get_quality(), Some(57));
}

#[test]
fn xing_info_without_counts_and_stop_at_sync() {
    let mut b = vec![0u8; 4];
    b.extend_from_slice(b"Info");
    b.extend_from_slice(&[0, 0, 0, 0x02]);
    b.extend_from_slice(&[0, 0, 0, 9]);
    let x = Xing::new(&b, 0);
    assert_eq!(x.get_frame_quantity(), None);
    assert_eq!(x.get_byte_quantity(), Some(9));
    assert_eq!(x.get_quality(), None);
    let sync = [0u8, 0xFF, 0xFB, b'X', b'i', b'n', b'g', 0, 0, 0, 1, 0, 0, 0, 1];
    let y = Xing::new(&sync, 0);
    assert_eq!(y.get_frame_quantity(), None);
}

#[test]
fn id3_not_a_tag_has_empty_version() {
    let id3 = Id3::new(vec![0xFF, 0xFB, 0x90, 0x64]);
    assert!(!id3.is_valid());
    assert_eq!(id3.get_id3_offset(), 0);
    assert_eq!(id3.get_id3_fields_length(), 0);
    assert_eq!(id3.get_id3_version(), "");
    assert_eq!(id3.get_id3_version().len(), 0);
}
