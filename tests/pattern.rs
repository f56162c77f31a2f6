use win_mem::pattern::Pattern;

#[test]
fn comparing_to_slice_u8_defined_size() {
    let a = Pattern::from([Some(8), None, Some(20)]);
    let b = [8u8, 11u8, 20u8];

    assert_eq!(a, &b);
    assert_eq!(&b, a);
}

#[test]
fn comparing_to_slice_u8_unknown_size() {
    let a = Pattern::from([Some(8), None, Some(20)]);
    let b = [8u8, 11u8, 20u8];
    let b1 = &b as &[u8];
    let c = [8u8, 11u8, 20u8, 0u8];
    let c1 = &c as &[u8];

    assert_eq!(a, b1);
    assert_eq!(b1, a);
    assert_ne!(a, c1);
    assert_ne!(c1, a);
}

#[test]
fn wildcards_accept_any_byte() {
    let p = Pattern::from([Some(0x2B), None, Some(0x89), None]);
    assert!(p.matches_exactly(&[0x2B, 0x00, 0x89, 0xFF]));
    assert!(p.matches_exactly(&[0x2B, 0xFF, 0x89, 0x00]));
    assert!(!p.matches_exactly(&[0x2C, 0x00, 0x89, 0xFF]));
    assert!(!p.matches_exactly(&[0x2B, 0x00, 0x88, 0xFF]));
}

#[test]
fn match_is_symmetric() {
    let p = Pattern::from([Some(1), None]);
    for bytes in [&[1u8, 2][..], &[2u8, 2][..], &[1u8][..], &[1u8, 2, 3][..]] {
        assert_eq!(p == bytes, bytes == p);
    }
}

#[test]
fn shorter_candidate_does_not_match() {
    let p = Pattern::from([Some(8), None]);
    let short = [8u8];
    assert_ne!(p, &short[..]);
    assert!(!p.matches_prefix(&short));
}

#[test]
fn prefix_match_ignores_trailing_bytes() {
    let p = Pattern::from([Some(8), None, Some(20)]);
    assert!(p.matches_prefix(&[8, 11, 20, 0]));
    assert!(!p.matches_exactly(&[8, 11, 20, 0]));
    assert!(!p.matches_prefix(&[9, 11, 20, 0]));
}

#[test]
fn scan_finds_smallest_aligned_offset() {
    let p = Pattern::from([Some(0xAA), Some(0xBB)]);
    let hay = [0u8, 0xAA, 0xBB, 0, 0xAA, 0xBB, 0, 0, 0xAA, 0xBB];
    assert_eq!(p.scan(&hay, 1), Some(1));
    assert_eq!(p.scan(&hay, 2), Some(4));
    assert_eq!(p.scan(&hay, 4), Some(4));
    assert_eq!(p.scan(&hay, 8), Some(8));
    assert_eq!(p.scan(&hay, 3), None);
}

#[test]
fn scan_is_deterministic() {
    let p = Pattern::from([None, Some(7)]);
    let hay = [7u8, 7, 7, 7, 7];
    let first = p.scan(&hay, 2);
    assert_eq!(first, Some(0));
    assert_eq!(p.scan(&hay, 2), first);
}

#[test]
fn scan_of_short_haystack_finds_nothing() {
    let p = Pattern::from([Some(1), Some(2), Some(3)]);
    assert_eq!(p.scan(&[1, 2], 1), None);
    assert_eq!(p.scan(&[], 1), None);
    let empty: Pattern<0> = Pattern::from([]);
    assert_eq!(empty.scan(&[], 1), Some(0));
}

#[test]
fn scan_reaches_last_position() {
    let p = Pattern::from([Some(9)]);
    assert_eq!(p.scan(&[0, 0, 0, 9], 1), Some(3));
    assert_eq!(p.scan(&[0, 0, 0, 9], 3), Some(3));
    assert_eq!(p.scan(&[0, 0, 0, 9], 2), None);
}
