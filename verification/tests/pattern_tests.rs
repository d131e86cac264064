use memview::error::Error;
use memview::memory::Memory;
use memview::module::Module;
use memview::pattern::WILDCARD;

const BASE: usize = 0x40_0000;

fn module_over(bytes: Vec<u8>) -> (Module, Memory) {
    let end = BASE + bytes.len();
    (Module::new_with(BASE, end), Memory { base: BASE, bytes })
}

#[test]
fn kth_match_selection() {
    // buffer AABBAABBAABB, pattern AA: matches at byte offsets 0, 4, 8
    let (m, mem) = module_over(b"AABBAABBAABB".to_vec());
    let pat = b"AA";
    assert_eq!(m.find_nth_pattern_bytes(&mem, pat, 0).unwrap().exposed_addr(), BASE);
    assert_eq!(m.find_nth_pattern_bytes(&mem, pat, 1).unwrap().exposed_addr(), BASE + 4);
    assert_eq!(m.find_nth_pattern_bytes(&mem, pat, 2).unwrap().exposed_addr(), BASE + 8);
    assert_eq!(m.find_nth_pattern_bytes(&mem, pat, 3), Err(Error::CantFind));
}

#[test]
fn scan_is_deterministic() {
    let (m, mem) = module_over(b"AABBAABBAABB".to_vec());
    let first = m.find_nth_pattern_bytes(&mem, b"AA", 1);
    let second = m.find_nth_pattern_bytes(&mem, b"AA", 1);
    assert_eq!(first, second);
}

#[test]
fn wildcard_pattern_matches_every_offset() {
    // an all-wildcard pattern of length 2 over 12 bytes: the k-th match
    // is at offset k, for every k the scanner's window bound admits
    let (m, mem) = module_over((0u8..12).collect());
    let pat = [WILDCARD, WILDCARD];
    for k in 0..=8 {
        assert_eq!(
            m.find_nth_pattern_bytes(&mem, &pat, k).unwrap().exposed_addr(),
            BASE + k
        );
    }
    // the scanner frames the range as a buffer shortened by one pattern
    // length, so the window for k = 9 would end past that frame
    assert_eq!(m.find_nth_pattern_bytes(&mem, &pat, 9), Err(Error::CantFind));
}

#[test]
fn wildcard_byte_matches_anything_in_place() {
    let (m, mem) = module_over(vec![0x10, 0x55, 0x99, 0x20, 0x55, 0x33, 0x00, 0x00, 0x00, 0x00]);
    // 0x55 followed by anything followed by 0x20
    let hit = m.find_pattern_bytes(&mem, &[0x55, WILDCARD, 0x20]).unwrap();
    assert_eq!(hit.exposed_addr(), BASE + 1);
}

#[test]
fn literal_mismatch_is_cant_find() {
    let (m, mem) = module_over(vec![1, 2, 3, 4, 5, 6, 7, 8]);
    assert_eq!(m.find_pattern_bytes(&mem, &[9, 9]), Err(Error::CantFind));
}

#[test]
fn pattern_longer_than_module_is_cant_find() {
    let (m, mem) = module_over(vec![1, 2, 3]);
    assert_eq!(m.find_pattern_bytes(&mem, &[1, 2, 3, 4]), Err(Error::CantFind));
}

#[test]
fn uncovered_module_is_out_of_bounds() {
    let m = Module::new_with(BASE, BASE + 64);
    let mem = Memory { base: BASE, bytes: vec![0u8; 16] };
    assert_eq!(m.find_pattern_bytes(&mem, &[0, 0]), Err(Error::OutOfBounds));
}

#[test]
fn hex_text_form_equals_byte_form() {
    let (m, mem) = module_over(b"AABBAABBAABB".to_vec());
    // the ASCII bytes of "AA" are 41 41
    let by_text = m.find_nth_pattern(&mem, "41 41", 1).unwrap();
    let by_bytes = m.find_nth_pattern_bytes(&mem, b"AA", 1).unwrap();
    assert_eq!(by_text, by_bytes);
}

#[test]
fn hex_text_accepts_both_letter_cases() {
    let (m, mem) = module_over(vec![0xAB, 0xCD, 0xEF, 0x00, 0x00, 0x00]);
    let lower = m.find_pattern(&mem, "ab cd").unwrap();
    let upper = m.find_pattern(&mem, "AB CD").unwrap();
    assert_eq!(lower.exposed_addr(), BASE);
    assert_eq!(upper, lower);
}

#[test]
fn hex_text_wildcard_token() {
    let (m, mem) = module_over(vec![0x10, 0x55, 0x99, 0x20, 0x00, 0x00, 0x00, 0x00]);
    let hit = m.find_pattern(&mem, "55 ? 20").unwrap();
    assert_eq!(hit.exposed_addr(), BASE + 1);
}

#[test]
fn hex_text_extra_whitespace_is_ignored() {
    let (m, mem) = module_over(vec![0xAB, 0xCD, 0x00, 0x00, 0x00, 0x00]);
    let hit = m.find_pattern(&mem, "  AB\t CD ").unwrap();
    assert_eq!(hit.exposed_addr(), BASE);
}
