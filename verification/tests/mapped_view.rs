use pelite::error::Error;
use pelite::pe64::Pe;
use pelite::pe64::PeFile;
use pelite::pe64::PeView;

/// A section row: name, VirtualSize, VirtualAddress, SizeOfRawData,
/// PointerToRawData, Characteristics.
type Sec = ([u8; 8], u32, u32, u32, u32, u32);

fn build_image(sections: &[Sec], image_base: u64, size_of_image: u32, file_len: usize) -> Vec<u8> {
    let mut img = vec![0u8; file_len];
    img[0] = b'M';
    img[1] = b'Z';
    let p = 0x80usize;
    img[0x3C..0x40].copy_from_slice(&(p as u32).to_le_bytes());
    img[p..p + 4].copy_from_slice(&0x00004550u32.to_le_bytes());
    img[p + 4..p + 6].copy_from_slice(&0x8664u16.to_le_bytes());
    img[p + 6..p + 8].copy_from_slice(&(sections.len() as u16).to_le_bytes());
    img[p + 20..p + 22].copy_from_slice(&240u16.to_le_bytes());
    img[p + 24..p + 26].copy_from_slice(&0x20Bu16.to_le_bytes());
    img[p + 48..p + 56].copy_from_slice(&image_base.to_le_bytes());
    img[p + 80..p + 84].copy_from_slice(&size_of_image.to_le_bytes());
    img[p + 84..p + 88].copy_from_slice(&0x400u32.to_le_bytes());
    img[p + 132..p + 136].copy_from_slice(&16u32.to_le_bytes());
    let sto = p + 264;
    for (i, s) in sections.iter().enumerate() {
        let off = sto + i * 40;
        img[off..off + 8].copy_from_slice(&s.0);
        img[off + 8..off + 12].copy_from_slice(&s.1.to_le_bytes());
        img[off + 12..off + 16].copy_from_slice(&s.2.to_le_bytes());
        img[off + 16..off + 20].copy_from_slice(&s.3.to_le_bytes());
        img[off + 20..off + 24].copy_from_slice(&s.4.to_le_bytes());
        img[off + 36..off + 40].copy_from_slice(&s.5.to_le_bytes());
    }
    img
}

fn two_section_image() -> (Vec<u8>, Vec<Sec>) {
    let sections: Vec<Sec> = vec![
        (*b".text\0\0\0", 0x200, 0x1000, 0x100, 0x400, 0x60000020),
        (*b".data\0\0\0", 0x100, 0x2000, 0x100, 0x500, 0xC0000040),
    ];
    let mut img = build_image(&sections, 0x140000000, 0x3000, 0x600);
    for k in 0..0x100usize {
        img[0x400 + k] = (k as u8).wrapping_add(1);
        img[0x500 + k] = (k as u8).wrapping_add(0x80);
    }
    (img, sections)
}

/// Lays the file image out as the loader would: headers in place, each
/// section's raw data copied to its virtual address, the rest zero.
fn map_image(file: &[u8], sections: &[Sec], size_of_image: u32) -> Vec<u8> {
    let mut mem = vec![0u8; size_of_image as usize];
    let headers = 0x400usize.min(file.len());
    mem[..headers].copy_from_slice(&file[..headers]);
    for s in sections {
        let (_, vs, va, srd, ptr, _) = *s;
        let n = srd.min(vs) as usize;
        mem[va as usize..va as usize + n]
            .copy_from_slice(&file[ptr as usize..ptr as usize + n]);
    }
    mem
}

#[test]
fn mapped_view_reads_the_zero_fill_tail() {
    let (img, sections) = two_section_image();
    let mem = map_image(&img, &sections, 0x3000);
    let view = PeView::from_bytes(&mem).unwrap();
    let s = view.slice(0x1150, 16, 1).unwrap();
    assert_eq!(&s[..16], &mem[0x1150..0x1160]);
    assert!(s[..16].iter().all(|&b| b == 0));
}

#[test]
fn mapped_view_is_the_identity_translation() {
    let (img, sections) = two_section_image();
    let mem = map_image(&img, &sections, 0x3000);
    let view = PeView::from_bytes(&mem).unwrap();
    let s = view.slice(0x1050, 16, 1).unwrap();
    assert_eq!(&s[..16], &mem[0x1050..0x1060]);
}

#[test]
fn mapped_view_rejects_rvas_past_the_image() {
    let (img, sections) = two_section_image();
    let mem = map_image(&img, &sections, 0x3000);
    let view = PeView::from_bytes(&mem).unwrap();
    assert!(matches!(view.slice(0x3000, 1, 1), Err(Error::OOB)));
    assert!(matches!(view.slice(0x2FFF, 2, 1), Err(Error::OOB)));
    assert!(matches!(view.slice(0, 1, 1), Err(Error::Null)));
}

#[test]
fn file_and_mapped_views_agree() {
    let (img, sections) = two_section_image();
    let mem = map_image(&img, &sections, 0x3000);
    let file = PeFile::from_bytes(&img).unwrap();
    let view = PeView::from_bytes(&mem).unwrap();
    for rva in 0u32..0x3010 {
        for len in [1usize, 4, 16] {
            let a = file.slice(rva, len, 1);
            let b = view.slice(rva, len, 1);
            if let (Ok(x), Ok(y)) = (a, b) {
                assert_eq!(&x[..len], &y[..len], "mismatch at rva {rva:#x} len {len}");
            }
        }
    }
}

#[test]
fn mapped_view_honours_alignment() {
    let (img, sections) = two_section_image();
    let mem = map_image(&img, &sections, 0x3000);
    let view = PeView::from_bytes(&mem).unwrap();
    assert!(view.slice(0x1050, 4, 4).is_ok());
    assert!(matches!(view.slice(0x1051, 4, 4), Err(Error::Misalign)));
    assert!(matches!(view.slice(0x1052, 4, 4), Err(Error::Misalign)));
    assert!(view.slice(0x1052, 2, 2).is_ok());
}

#[test]
fn mapped_read_resolves_a_va() {
    let (img, sections) = two_section_image();
    let mem = map_image(&img, &sections, 0x3000);
    let view = PeView::from_bytes(&mem).unwrap();
    let s = view.read(0x140001050, 16, 1).unwrap();
    assert_eq!(&s[..16], &mem[0x1050..0x1060]);
    assert!(matches!(view.read(0x140004000, 1, 1), Err(Error::OOB)));
}
