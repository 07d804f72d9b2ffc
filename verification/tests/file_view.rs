use pelite::error::Error;
use pelite::image::ImageSectionHeader;
use pelite::pe64::pe::data_directory;
use pelite::pe64::pe::deref;
use pelite::pe64::pe::derva;
use pelite::pe64::pe::derva_slice;
use pelite::pe64::pe::derva_str;
use pelite::pe64::pe::exports;
use pelite::pe64::Ptr;
use pelite::pe64::pe::optional_header;
use pelite::pe64::pe::rva_to_va;
use pelite::pe64::pe::section_headers;
use pelite::pe64::pe::va_to_rva;
use pelite::pe64::Pe;
use pelite::pe64::PeFile;

/// A section row: name, VirtualSize, VirtualAddress, SizeOfRawData,
/// PointerToRawData, Characteristics.
type Sec = ([u8; 8], u32, u32, u32, u32, u32);

fn build_image(sections: &[Sec], image_base: u64, size_of_image: u32, file_len: usize) -> Vec<u8> {
    let mut img = vec![0u8; file_len];
    img[0] = b'M';
    img[1] = b'Z';
    let p = 0x80usize;
    img[0x3C..0x40].copy_from_slice(&(p as u32).to_le_bytes());
    img[p..p + 4].copy_from_slice(&0x00004550u32.to_le_bytes());
    img[p + 4..p + 6].copy_from_slice(&0x8664u16.to_le_bytes());
    img[p + 6..p + 8].copy_from_slice(&(sections.len() as u16).to_le_bytes());
    img[p + 20..p + 22].copy_from_slice(&240u16.to_le_bytes());
    img[p + 24..p + 26].copy_from_slice(&0x20Bu16.to_le_bytes());
    img[p + 48..p + 56].copy_from_slice(&image_base.to_le_bytes());
    img[p + 80..p + 84].copy_from_slice(&size_of_image.to_le_bytes());
    img[p + 84..p + 88].copy_from_slice(&0x400u32.to_le_bytes());
    img[p + 132..p + 136].copy_from_slice(&16u32.to_le_bytes());
    let sto = p + 264;
    for (i, s) in sections.iter().enumerate() {
        let off = sto + i * 40;
        img[off..off + 8].copy_from_slice(&s.0);
        img[off + 8..off + 12].copy_from_slice(&s.1.to_le_bytes());
        img[off + 12..off + 16].copy_from_slice(&s.2.to_le_bytes());
        img[off + 16..off + 20].copy_from_slice(&s.3.to_le_bytes());
        img[off + 20..off + 24].copy_from_slice(&s.4.to_le_bytes());
        img[off + 36..off + 40].copy_from_slice(&s.5.to_le_bytes());
    }
    img
}

/// The two-section layout: `.text` with a raw range shorter than its
/// virtual range, `.data` further up, a gap in between.
fn two_section_image() -> Vec<u8> {
    let sections: &[Sec] = &[
        (*b".text\0\0\0", 0x200, 0x1000, 0x100, 0x400, 0x60000020),
        (*b".data\0\0\0", 0x100, 0x2000, 0x100, 0x500, 0xC0000040),
    ];
    let mut img = build_image(sections, 0x140000000, 0x3000, 0x600);
    for k in 0..0x100usize {
        img[0x400 + k] = (k as u8).wrapping_add(1);
        img[0x500 + k] = (k as u8).wrapping_add(0x80);
    }
    img
}

#[test]
fn from_byte_slice() {
    assert!(match PeFile::from_bytes(&[][..]) {
        Err(Error::OOB) => true,
        _ => false,
    });
}

#[test]
fn lfanew_past_end_is_oob() {
    let mut img = vec![0u8; 0x80];
    img[0] = b'M';
    img[1] = b'Z';
    img[0x3C..0x40].copy_from_slice(&0x10000u32.to_le_bytes());
    assert!(matches!(PeFile::from_bytes(&img), Err(Error::OOB)));
}

#[test]
fn wrong_dos_magic_is_bad_magic() {
    let img = vec![0u8; 0x400];
    assert!(matches!(PeFile::from_bytes(&img), Err(Error::BadMagic)));
}

#[test]
fn wrong_nt_signature_is_bad_magic() {
    let mut img = two_section_image();
    img[0x80] = 0;
    assert!(matches!(PeFile::from_bytes(&img), Err(Error::BadMagic)));
}

#[test]
fn wrong_machine_is_invalid() {
    let mut img = two_section_image();
    img[0x84..0x86].copy_from_slice(&0x014Cu16.to_le_bytes());
    assert!(matches!(PeFile::from_bytes(&img), Err(Error::Invalid)));
}

#[test]
fn wrong_optional_magic_is_bad_magic() {
    let mut img = two_section_image();
    img[0x98..0x9A].copy_from_slice(&0x10Bu16.to_le_bytes());
    assert!(matches!(PeFile::from_bytes(&img), Err(Error::BadMagic)));
}

#[test]
fn too_many_directories_is_invalid() {
    let mut img = two_section_image();
    img[0x80 + 132..0x80 + 136].copy_from_slice(&17u32.to_le_bytes());
    assert!(matches!(PeFile::from_bytes(&img), Err(Error::Invalid)));
}

#[test]
fn image_smaller_than_headers_is_insanity() {
    let mut img = two_section_image();
    img[0x80 + 80..0x80 + 84].copy_from_slice(&0x100u32.to_le_bytes());
    assert!(matches!(PeFile::from_bytes(&img), Err(Error::Insanity)));
}

#[test]
fn section_past_image_is_insanity() {
    let sections: &[Sec] = &[(*b".text\0\0\0", 0x4000, 0x1000, 0x100, 0x400, 0x60000020)];
    let img = build_image(sections, 0x140000000, 0x3000, 0x600);
    assert!(matches!(PeFile::from_bytes(&img), Err(Error::Insanity)));
}

#[test]
fn section_read_hits_raw_data() {
    let img = two_section_image();
    let file = PeFile::from_bytes(&img).unwrap();
    let s = file.slice(0x1050, 16, 1).unwrap();
    assert!(s.len() >= 16);
    assert_eq!(&s[..16], &img[0x450..0x460]);
}

#[test]
fn zero_fill_tail_is_refused() {
    let img = two_section_image();
    let file = PeFile::from_bytes(&img).unwrap();
    assert!(matches!(file.slice(0x1150, 16, 1), Err(Error::ZeroFill)));
}

#[test]
fn short_request_past_virtual_end_is_oob() {
    let img = two_section_image();
    let file = PeFile::from_bytes(&img).unwrap();
    // From RVA 0x10F0, a request of 0x120 bytes runs past the section's
    // virtual end at 0x1200: no loader could serve it.
    assert!(matches!(file.slice(0x10F0, 0x120, 1), Err(Error::OOB)));
}

#[test]
fn short_request_within_virtual_range_is_zero_fill() {
    let img = two_section_image();
    let file = PeFile::from_bytes(&img).unwrap();
    // From RVA 0x10F0 only 0x10 raw bytes remain, but 0x100 bytes still
    // fit the virtual range: the loader would zero-fill the rest.
    assert!(matches!(file.slice(0x10F0, 0x100, 1), Err(Error::ZeroFill)));
}

#[test]
fn gap_between_sections_is_oob() {
    let img = two_section_image();
    let file = PeFile::from_bytes(&img).unwrap();
    assert!(matches!(file.slice(0x1800, 16, 1), Err(Error::OOB)));
}

#[test]
fn null_rva_is_refused() {
    let img = two_section_image();
    let file = PeFile::from_bytes(&img).unwrap();
    assert!(matches!(file.slice(0, 1, 1), Err(Error::Null)));
}

#[test]
fn header_region_is_readable() {
    let img = two_section_image();
    let file = PeFile::from_bytes(&img).unwrap();
    let s = file.slice(0x3C, 4, 1).unwrap();
    assert_eq!(&s[..4], &img[0x3C..0x40]);
}

#[test]
fn no_read_ever_leaves_the_blob() {
    let img = two_section_image();
    let file = PeFile::from_bytes(&img).unwrap();
    let base = img.as_ptr() as usize;
    for rva in (0u32..0x3100).step_by(0x33) {
        for len in [0usize, 1, 16, 0x200, 0x10000] {
            if let Ok(s) = file.slice(rva, len, 1) {
                let start = s.as_ptr() as usize - base;
                assert!(s.len() >= len);
                assert!(start + s.len() <= img.len());
            }
        }
    }
}

#[test]
fn successful_slices_honour_alignment() {
    let img = two_section_image();
    let file = PeFile::from_bytes(&img).unwrap();
    let base = img.as_ptr() as usize;
    for rva in (0u32..0x2200).step_by(7) {
        for align in [1usize, 2, 4, 8] {
            if let Ok(s) = file.slice(rva, 1, align) {
                let start = s.as_ptr() as usize - base;
                assert_eq!(start % align, 0);
            }
        }
    }
}

#[test]
fn misaligned_read_is_refused() {
    let img = two_section_image();
    let file = PeFile::from_bytes(&img).unwrap();
    // RVA 0x1001 backs file offset 0x401.
    assert!(matches!(file.slice(0x1001, 4, 4), Err(Error::Misalign)));
}

#[test]
fn va_round_trips_through_rva() {
    let img = two_section_image();
    let file = PeFile::from_bytes(&img).unwrap();
    for rva in [0u32, 1, 0x1000, 0x1050, 0x2FFF] {
        let va = rva_to_va(&file, rva).unwrap();
        assert_eq!(va, 0x140000000 + rva as u64);
        assert_eq!(va_to_rva(&file, va).unwrap(), rva);
    }
    assert!(matches!(rva_to_va(&file, 0x3000), Err(Error::OOB)));
    assert!(matches!(va_to_rva(&file, 0x13FFFFFFF), Err(Error::OOB)));
    assert!(matches!(va_to_rva(&file, 0x140003000), Err(Error::OOB)));
}

#[test]
fn read_resolves_a_va() {
    let img = two_section_image();
    let file = PeFile::from_bytes(&img).unwrap();
    let s = file.read(0x140001050, 16, 1).unwrap();
    assert_eq!(&s[..16], &img[0x450..0x460]);
    assert!(matches!(file.read(0, 1, 1), Err(Error::Null)));
    assert!(matches!(file.read(0x100, 1, 1), Err(Error::OOB)));
}

#[test]
fn typed_read_decodes_little_endian() {
    let img = two_section_image();
    let file = PeFile::from_bytes(&img).unwrap();
    // Bytes 1, 2, 3, 4 at RVA 0x1000 (file offset 0x400).
    let v: u32 = derva(&file, 0x1000).unwrap();
    assert_eq!(v, 0x04030201);
    let w: u16 = derva(&file, 0x1002).unwrap();
    assert_eq!(w, 0x0403);
}

#[test]
fn typed_slice_reads_consecutive_records() {
    let img = two_section_image();
    let file = PeFile::from_bytes(&img).unwrap();
    let v: Vec<u16> = derva_slice(&file, 0x1000, 4).unwrap();
    assert_eq!(v, vec![0x0201, 0x0403, 0x0605, 0x0807]);
    let r: Result<Vec<u64>, Error> = derva_slice(&file, 0x1000, usize::MAX);
    assert!(matches!(r, Err(Error::Overflow)));
    // 0x60 records of four bytes stay inside the virtual range but run
    // past the raw data: the loader would zero-fill them.
    let r: Result<Vec<u32>, Error> = derva_slice(&file, 0x1000, 0x60);
    assert!(matches!(r, Err(Error::ZeroFill)));
    // 0x100 records run past the virtual end itself.
    let r: Result<Vec<u32>, Error> = derva_slice(&file, 0x1000, 0x100);
    assert!(matches!(r, Err(Error::OOB)));
}

#[test]
fn typed_pointer_dereferences_through_the_view() {
    let img = two_section_image();
    let file = PeFile::from_bytes(&img).unwrap();
    let p: Ptr<u32> = Ptr::new(0x140001000);
    assert_eq!(derva::<u32, _>(&file, 0x1000).unwrap(), deref(&file, p).unwrap());
    let null: Ptr<u32> = Ptr::new(0);
    assert!(matches!(deref(&file, null), Err(Error::Null)));
    let far: Ptr<u32> = Ptr::new(0x150000000);
    assert!(matches!(deref(&file, far), Err(Error::OOB)));
}

#[test]
fn typed_read_out_of_reach_fails() {
    let img = two_section_image();
    let file = PeFile::from_bytes(&img).unwrap();
    let r: Result<u64, Error> = derva(&file, 0x1800);
    assert!(matches!(r, Err(Error::OOB)));
}

#[test]
fn nul_string_read_stops_at_nul() {
    let sections: &[Sec] = &[(*b".rdata\0\0", 0x100, 0x1000, 0x100, 0x400, 0x40000040)];
    let mut img = build_image(sections, 0x140000000, 0x2000, 0x500);
    img[0x400..0x40C].copy_from_slice(b"hello world\0");
    let file = PeFile::from_bytes(&img).unwrap();
    let s = derva_str(&file, 0x1000).unwrap();
    assert_eq!(s, b"hello world");
}

#[test]
fn unterminated_string_is_cstr_error() {
    let sections: &[Sec] = &[(*b".rdata\0\0", 0x100, 0x1000, 0x100, 0x400, 0x40000040)];
    let mut img = build_image(sections, 0x140000000, 0x2000, 0x500);
    for k in 0..0x100usize {
        img[0x400 + k] = b'a';
    }
    let file = PeFile::from_bytes(&img).unwrap();
    assert!(matches!(derva_str(&file, 0x1000), Err(Error::CStr)));
}

#[test]
fn export_directory_entry_resolves() {
    let img = two_section_image();
    let file = PeFile::from_bytes(&img).unwrap();
    assert!(matches!(exports(&file), Err(Error::Null)));

    let mut img2 = two_section_image();
    // Point the export slot at RVA 0x1000 (file offset 0x400).
    img2[0x80 + 136..0x80 + 140].copy_from_slice(&0x1000u32.to_le_bytes());
    img2[0x80 + 140..0x80 + 144].copy_from_slice(&40u32.to_le_bytes());
    img2[0x400..0x440].fill(0);
    img2[0x414..0x418].copy_from_slice(&7u32.to_le_bytes());  // NumberOfFunctions
    img2[0x410..0x414].copy_from_slice(&1u32.to_le_bytes());  // Base
    let file2 = PeFile::from_bytes(&img2).unwrap();
    let ex = exports(&file2).unwrap();
    assert_eq!(ex.Base, 1);
    assert_eq!(ex.NumberOfFunctions, 7);
}

#[test]
fn parsed_headers_match_the_bytes() {
    let img = two_section_image();
    let file = PeFile::from_bytes(&img).unwrap();
    let opt = optional_header(&file);
    assert_eq!(opt.Magic, 0x20B);
    assert_eq!(opt.ImageBase, 0x140000000);
    assert_eq!(opt.SizeOfImage, 0x3000);
    assert_eq!(opt.SizeOfHeaders, 0x400);
    assert_eq!(opt.NumberOfRvaAndSizes, 16);
    let secs: Vec<ImageSectionHeader> = section_headers(&file);
    assert_eq!(secs.len(), 2);
    assert_eq!(&secs[0].Name, b".text\0\0\0");
    assert_eq!(secs[0].VirtualAddress, 0x1000);
    assert_eq!(secs[0].VirtualSize, 0x200);
    assert_eq!(secs[0].SizeOfRawData, 0x100);
    assert_eq!(secs[0].PointerToRawData, 0x400);
    assert_eq!(secs[1].VirtualAddress, 0x2000);
    let dirs = data_directory(&file);
    assert_eq!(dirs.len(), 16);
    assert_eq!(dirs[0].VirtualAddress, 0);
    assert_eq!(dirs[0].Size, 0);
}
