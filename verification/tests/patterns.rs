use pelite::error::Error;
use pelite::pattern;
use pelite::pe64::PeView;
use pelite::pe64::Scanner;

/// A section row: name, VirtualSize, VirtualAddress, SizeOfRawData,
/// PointerToRawData, Characteristics.
type Sec = ([u8; 8], u32, u32, u32, u32, u32);

fn build_image(sections: &[Sec], image_base: u64, size_of_image: u32, file_len: usize) -> Vec<u8> {
    let mut img = vec![0u8; file_len];
    img[0] = b'M';
    img[1] = b'Z';
    let p = 0x80usize;
    img[0x3C..0x40].copy_from_slice(&(p as u32).to_le_bytes());
    img[p..p + 4].copy_from_slice(&0x00004550u32.to_le_bytes());
    img[p + 4..p + 6].copy_from_slice(&0x8664u16.to_le_bytes());
    img[p + 6..p + 8].copy_from_slice(&(sections.len() as u16).to_le_bytes());
    img[p + 20..p + 22].copy_from_slice(&240u16.to_le_bytes());
    img[p + 24..p + 26].copy_from_slice(&0x20Bu16.to_le_bytes());
    img[p + 48..p + 56].copy_from_slice(&image_base.to_le_bytes());
    img[p + 80..p + 84].copy_from_slice(&size_of_image.to_le_bytes());
    img[p + 84..p + 88].copy_from_slice(&0x400u32.to_le_bytes());
    img[p + 132..p + 136].copy_from_slice(&16u32.to_le_bytes());
    let sto = p + 264;
    for (i, s) in sections.iter().enumerate() {
        let off = sto + i * 40;
        img[off..off + 8].copy_from_slice(&s.0);
        img[off + 8..off + 12].copy_from_slice(&s.1.to_le_bytes());
        img[off + 12..off + 16].copy_from_slice(&s.2.to_le_bytes());
        img[off + 16..off + 20].copy_from_slice(&s.3.to_le_bytes());
        img[off + 20..off + 24].copy_from_slice(&s.4.to_le_bytes());
        img[off + 36..off + 40].copy_from_slice(&s.5.to_le_bytes());
    }
    img
}

/// A mapped image with one executable `.text` section covering
/// `[0x1000, 0x2200)`, based at `0x400000`, and `code` placed at RVA
/// `0x1000`.
fn code_image(code: &[u8]) -> Vec<u8> {
    let sections: &[Sec] = &[(*b".text\0\0\0", 0x1200, 0x1000, 0x1200, 0x1000, 0x60000020)];
    let mut mem = build_image(sections, 0x400000, 0x4000, 0x4000);
    mem[0x1000..0x1000 + code.len()].copy_from_slice(code);
    mem
}

#[test]
fn literal_pattern_matches_once() {
    let mut code = vec![0u8; 0x1200];
    code[0x2C0..0x2C4].copy_from_slice(&[0x55, 0x8B, 0xEC, 0xC3]);
    let mem = code_image(&code);
    let view = PeView::from_bytes(&mem).unwrap();
    let pat = pattern::parse("55 8B EC C3").unwrap();
    let matches = Scanner::new(view).matches_code(&pat);
    assert_eq!(matches.len(), 1);
    assert_eq!(matches[0], vec![0x12C0]);
}

#[test]
fn relative_follow_matches_its_target() {
    let mut code = vec![0u8; 0x1200];
    // call rel32 at RVA 0x1000 targeting 0x2000: disp = 0x2000 - 0x1005.
    code[0] = 0xE8;
    code[1..5].copy_from_slice(&0xFFBu32.to_le_bytes());
    code[0x1000..0x1003].copy_from_slice(&[0x55, 0x8B, 0xEC]);
    let mem = code_image(&code);
    let view = PeView::from_bytes(&mem).unwrap();
    let pat = pattern::parse("E8 $ { 55 8B EC }").unwrap();
    let m = Scanner::new(view).exec(&pat, 0x1000).unwrap();
    assert_eq!(m, vec![0x1000]);
}

#[test]
fn relative_follow_fails_without_its_target() {
    let mut code = vec![0u8; 0x1200];
    code[0] = 0xE8;
    code[1..5].copy_from_slice(&0xFFBu32.to_le_bytes());
    // Nothing at RVA 0x2000.
    let mem = code_image(&code);
    let view = PeView::from_bytes(&mem).unwrap();
    let pat = pattern::parse("E8 $ { 55 8B EC }").unwrap();
    assert!(Scanner::new(view).exec(&pat, 0x1000).is_none());
}

#[test]
fn absolute_follow_captures_the_target() {
    // mov eax, 0x3000; ret — in an image based at 0x400000.
    let mut code = vec![0u8; 0x1200];
    code[..6].copy_from_slice(&[0xB8, 0x00, 0x30, 0x00, 0x00, 0xC3]);
    let mem = code_image(&code);
    let view = PeView::from_bytes(&mem).unwrap();
    let pat = pattern::parse("B8 * { ' } C3").unwrap();
    let m = Scanner::new(view).exec(&pat, 0x1000).unwrap();
    assert_eq!(m, vec![0x1000, 0x3000]);
}

#[test]
fn empty_pattern_matches_exactly_at_the_start() {
    let mem = code_image(&[0x90u8; 16]);
    let view = PeView::from_bytes(&mem).unwrap();
    let pat = pattern::parse("").unwrap();
    let m = Scanner::new(view).exec(&pat, 0x1234).unwrap();
    assert_eq!(m, vec![0x1234]);
    let pat2 = pattern::parse("   ").unwrap();
    let m2 = Scanner::new(view).exec(&pat2, 0x1070).unwrap();
    assert_eq!(m2, vec![0x1070]);
}

#[test]
fn scanning_twice_yields_the_same_matches() {
    let mut code = vec![0u8; 0x1200];
    for k in 0..0x1200usize {
        code[k] = (k as u8).wrapping_mul(31).wrapping_add(7);
    }
    let mem = code_image(&code);
    let view = PeView::from_bytes(&mem).unwrap();
    let pat = pattern::parse("?? 8? '").unwrap();
    let scanner = Scanner::new(view);
    let a = scanner.matches_code(&pat);
    let b = scanner.matches_code(&pat);
    assert_eq!(a, b);
}

#[test]
fn captures_stay_within_the_image() {
    let mut code = vec![0u8; 0x1200];
    code[..6].copy_from_slice(&[0xB8, 0x00, 0x30, 0x00, 0x00, 0xC3]);
    code[0x100..0x105].copy_from_slice(&[0xE8, 0xFB, 0x0E, 0x00, 0x00]);
    let mem = code_image(&code);
    let view = PeView::from_bytes(&mem).unwrap();
    let pat = pattern::parse("B8 * { ' } C3").unwrap();
    let matches = Scanner::new(view).matches_code(&pat);
    assert!(!matches.is_empty());
    for m in matches {
        assert!(!m.is_empty());
        assert!(m[0] < 0x4000);
        for slot in m {
            assert!(slot <= 0x4000);
        }
    }
}

#[test]
fn nibble_wildcards_mask_compare() {
    let mut code = vec![0u8; 0x1200];
    code[0x40..0x44].copy_from_slice(&[0x5A, 0x12, 0xA5, 0xC3]);
    let mem = code_image(&code);
    let view = PeView::from_bytes(&mem).unwrap();
    let scanner = Scanner::new(view);
    let pat = pattern::parse("5? 12 ?5 C3").unwrap();
    assert!(scanner.exec(&pat, 0x1040).is_some());
    let pat2 = pattern::parse("5? 13 ?5 C3").unwrap();
    assert!(scanner.exec(&pat2, 0x1040).is_none());
}

#[test]
fn wildcard_bytes_always_advance() {
    let mut code = vec![0u8; 0x1200];
    code[0x40..0x44].copy_from_slice(&[0x12, 0x34, 0x56, 0xC3]);
    let mem = code_image(&code);
    let view = PeView::from_bytes(&mem).unwrap();
    let pat = pattern::parse("12 ???? C3").unwrap();
    assert!(Scanner::new(view).exec(&pat, 0x1040).is_some());
}

#[test]
fn alternation_takes_the_first_match() {
    let mut code = vec![0u8; 0x1200];
    code[0x40..0x42].copy_from_slice(&[0xC3, 0x00]);
    code[0x50..0x52].copy_from_slice(&[0x55, 0x00]);
    let mem = code_image(&code);
    let view = PeView::from_bytes(&mem).unwrap();
    let scanner = Scanner::new(view);
    let pat = pattern::parse("[ 55 | C3 ] '").unwrap();
    assert_eq!(scanner.exec(&pat, 0x1040).unwrap(), vec![0x1040, 0x1041]);
    assert_eq!(scanner.exec(&pat, 0x1050).unwrap(), vec![0x1050, 0x1051]);
    assert!(scanner.exec(&pat, 0x1042).is_none());
}

#[test]
fn capture_records_the_cursor() {
    let mut code = vec![0u8; 0x1200];
    code[0x40..0x43].copy_from_slice(&[0x55, 0x8B, 0xEC]);
    let mem = code_image(&code);
    let view = PeView::from_bytes(&mem).unwrap();
    let pat = pattern::parse("55 ' 8B EC").unwrap();
    let m = Scanner::new(view).exec(&pat, 0x1040).unwrap();
    assert_eq!(m, vec![0x1040, 0x1041]);
}

#[test]
fn malformed_patterns_are_invalid() {
    assert!(matches!(pattern::parse("G0"), Err(Error::Invalid)));
    assert!(matches!(pattern::parse("5"), Err(Error::Invalid)));
    assert!(matches!(pattern::parse("5 5"), Err(Error::Invalid)));
    assert!(matches!(pattern::parse("* 55"), Err(Error::Invalid)));
    assert!(matches!(pattern::parse("[ 55"), Err(Error::Invalid)));
    assert!(matches!(pattern::parse("55 }"), Err(Error::Invalid)));
    assert!(matches!(pattern::parse("{ 55 }"), Err(Error::Invalid)));
    assert!(matches!(pattern::parse("55 | C3"), Err(Error::Invalid)));
}

#[test]
fn parse_accepts_bytes_too() {
    assert!(pattern::parse_bytes(b"55 8b ec c3").is_ok());
    assert!(matches!(pattern::parse_bytes(b"xyz"), Err(Error::Invalid)));
}

#[test]
fn matches_come_in_ascending_order() {
    let mut code = vec![0u8; 0x1200];
    code[0x10] = 0xC3;
    code[0x20] = 0xC3;
    code[0x30] = 0xC3;
    let mem = code_image(&code);
    let view = PeView::from_bytes(&mem).unwrap();
    let pat = pattern::parse("C3").unwrap();
    let matches = Scanner::new(view).matches_code(&pat);
    assert_eq!(matches.len(), 3);
    assert_eq!(matches[0], vec![0x1010]);
    assert_eq!(matches[1], vec![0x1020]);
    assert_eq!(matches[2], vec![0x1030]);
}
