use pelite::image::ImageSectionHeader;
use pelite::util::strn;
use pelite::util::wstrn;
use pelite::util::Offset;
use pelite::util::Pod;

#[test]
fn strn_splits_before_the_nul() {
    let buf: &[u8; 8] = b"STRING\0\0";
    assert_eq!(strn(buf), b"STRING");

    let buf: &[u8; 4] = b"FOUR";
    assert_eq!(strn(buf), b"FOUR");

    assert_eq!(strn(b""), b"");
    assert_eq!(strn(b"\0tail"), b"");
}

#[test]
fn wstrn_splits_before_the_nul_word() {
    let buf: [u16; 8] = [83, 84, 82, 73, 78, 71, 0, 0];
    assert_eq!(wstrn(&buf), &[83, 84, 82, 73, 78, 71]);

    let buf: [u16; 4] = [70, 79, 85, 82];
    assert_eq!(wstrn(&buf), &[70, 79, 85, 82]);
}

#[test]
fn offset_advances_by_records() {
    assert_eq!(0x1000u64.offset(3u32, 8), 0x1018);
    assert_eq!(0x1000u32.offset(2i32, 4), 0x1008);
    assert_eq!(0x1000u64.offset(-2i32, 8), 0xFF0);
    assert_eq!(0u64.offset(-1i32, 4), 0xFFFFFFFFFFFFFFFC);
    assert_eq!(0u32.offset(-1i32, 4), 0xFFFFFFFC);
    assert_eq!(0x10u64.offset(1usize, 0x20), 0x30);
    assert_eq!(0x10u64.offset(2u64, 1), 0x12);
    assert_eq!(0x10u64.offset(-1i64, 16), 0);
    assert_eq!(0x10u32.offset(1u32, 2), 0x12);
    assert_eq!(0x10u32.offset(3usize, 1), 0x13);
    assert_eq!(0x10u64.offset(-8isize, 2), 0);
    assert_eq!(0x10u32.offset(-8isize, 2), 0);
}

#[test]
fn pod_reads_are_little_endian() {
    let b: &[u8] = &[0x01, 0x02, 0x03, 0x04, 0x05, 0x06, 0x07, 0x08];
    assert_eq!(u8::read_from(b), 0x01);
    assert_eq!(u16::read_from(b), 0x0201);
    assert_eq!(u32::read_from(b), 0x04030201);
    assert_eq!(u64::read_from(b), 0x0807060504030201);
    assert_eq!(u8::pod_size(), 1);
    assert_eq!(u64::pod_size(), 8);
    assert_eq!(u64::pod_align(), 8);
}

#[test]
fn pod_reads_signed_values() {
    let b: &[u8] = &[0xFF, 0xFF, 0xFF, 0xFF, 0xFF, 0xFF, 0xFF, 0x7F];
    assert_eq!(i8::read_from(b), -1);
    assert_eq!(i16::read_from(b), -1);
    assert_eq!(i32::read_from(b), -1);
    assert_eq!(i64::read_from(b), 0x7FFFFFFFFFFFFFFF);
}

#[test]
fn pod_reads_whole_records() {
    let mut b = vec![0u8; 40];
    b[..8].copy_from_slice(b".text\0\0\0");
    b[8..12].copy_from_slice(&0x200u32.to_le_bytes());
    b[12..16].copy_from_slice(&0x1000u32.to_le_bytes());
    b[16..20].copy_from_slice(&0x100u32.to_le_bytes());
    b[20..24].copy_from_slice(&0x400u32.to_le_bytes());
    b[36..40].copy_from_slice(&0x60000020u32.to_le_bytes());
    let s = ImageSectionHeader::read_from(&b);
    assert_eq!(&s.Name, b".text\0\0\0");
    assert_eq!(s.VirtualSize, 0x200);
    assert_eq!(s.VirtualAddress, 0x1000);
    assert_eq!(s.SizeOfRawData, 0x100);
    assert_eq!(s.PointerToRawData, 0x400);
    assert_eq!(s.Characteristics, 0x60000020);
    assert_eq!(ImageSectionHeader::pod_size(), 40);
}
