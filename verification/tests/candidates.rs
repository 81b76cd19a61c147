//! Candidate lists, composition strings and pages.

use ime_overlay::candidates::{
    composition_room, fetch_ime_state, list_room, parse_candlist, read_candidate_list,
    read_composition, read_u32, read_units, ImeState,
};

fn le(bytes: &mut Vec<u8>, n: u32) {
    bytes.extend_from_slice(&n.to_le_bytes());
}

fn list(count: u32, selection: u32, start: u32, size: u32, strings: &[Vec<u16>]) -> Vec<u8> {
    let mut bytes = Vec::new();
    le(&mut bytes, 0);
    le(&mut bytes, 0);
    le(&mut bytes, count);
    le(&mut bytes, selection);
    le(&mut bytes, start);
    le(&mut bytes, size);
    let mut offset = 0x18 + 4 * strings.len() as u32;
    for s in strings {
        le(&mut bytes, offset);
        offset += 2 * s.len() as u32 + 2;
    }
    for s in strings {
        for u in s {
            bytes.extend_from_slice(&u.to_le_bytes());
        }
        bytes.extend_from_slice(&[0, 0]);
    }
    bytes
}

fn wide(text: &str) -> Vec<u16> {
    text.encode_utf16().collect()
}

fn state(selection: u32, start: u32, size: u32, items: &[&str]) -> ImeState {
    ImeState {
        composition: String::new(),
        total: items.len() as u32,
        selection,
        page_start: start,
        page_size: size,
        items: items.iter().map(|s| s.to_string()).collect(),
        first: 0,
    }
}

#[test]
fn a_list_is_read_back() {
    let bytes = list(3, 1, 0, 9, &[wide("\u{4F60}"), wide("\u{597D}\u{55CE}"), wide("\u{1F600}")]);
    let (count, selection, start, size, items) = parse_candlist(&bytes).unwrap();
    assert_eq!((count, selection, start, size), (3, 1, 0, 9));
    assert_eq!(items, vec!["\u{4F60}", "\u{597D}\u{55CE}", "\u{1F600}"]);
}

#[test]
fn a_block_without_the_fixed_fields_is_no_list() {
    let bytes = list(1, 0, 0, 9, &[wide("a")]);
    assert!(parse_candlist(&bytes[..0x17]).is_none());
    assert!(parse_candlist(&[]).is_none());
    let (_, _, _, _, items) = parse_candlist(&bytes[..0x18]).unwrap();
    assert!(items.is_empty());
}

#[test]
fn the_count_has_to_be_within_its_limits() {
    assert!(parse_candlist(&list(0, 0, 0, 9, &[])).is_none());
    assert!(parse_candlist(&list(1025, 0, 0, 9, &[wide("a")])).is_none());
    let (count, _, _, _, items) = parse_candlist(&list(1024, 0, 0, 9, &[])).unwrap();
    assert_eq!(count, 1024);
    assert!(items.is_empty());
}

#[test]
fn no_more_than_sixty_four_candidates_are_kept() {
    let strings: Vec<Vec<u16>> = (0..70u16).map(|i| vec![0x4E00 + i]).collect();
    let (count, _, _, _, items) = parse_candlist(&list(70, 0, 0, 9, &strings)).unwrap();
    assert_eq!(count, 70);
    assert_eq!(items.len(), 64);
    assert_eq!(items[63], String::from_utf16_lossy(&[0x4E00 + 63]));
}

#[test]
fn no_more_than_sixty_five_units_of_a_candidate_are_kept() {
    let long: Vec<u16> = vec![0x41; 100];
    let (_, _, _, _, items) = parse_candlist(&list(1, 0, 0, 9, &[long])).unwrap();
    assert_eq!(items[0], "A".repeat(65));
    let fitting: Vec<u16> = vec![0x42; 65];
    let (_, _, _, _, items) = parse_candlist(&list(1, 0, 0, 9, &[fitting])).unwrap();
    assert_eq!(items[0], "B".repeat(65));
}

#[test]
fn an_offset_past_the_end_gives_an_empty_candidate() {
    let mut bytes = list(2, 0, 0, 9, &[wide("a"), wide("b")]);
    let n = bytes.len() as u32;
    bytes[0x18..0x1C].copy_from_slice(&n.to_le_bytes());
    let (_, _, _, _, items) = parse_candlist(&bytes).unwrap();
    assert_eq!(items, vec!["", "b"]);
}

#[test]
fn a_candidate_ends_with_the_block() {
    let mut bytes = list(1, 0, 0, 9, &[wide("ab")]);
    bytes.truncate(bytes.len() - 3);
    let (_, _, _, _, items) = parse_candlist(&bytes).unwrap();
    assert_eq!(items, vec!["a"]);
}

#[test]
fn the_offsets_end_with_the_block() {
    let bytes = list(3, 0, 0, 9, &[wide("a"), wide("b"), wide("c")]);
    let (count, _, _, _, items) = parse_candlist(&bytes[..0x18 + 9]).unwrap();
    assert_eq!(count, 3);
    assert_eq!(items, vec!["", ""]);
}

#[test]
fn numbers_are_little_endian() {
    assert_eq!(read_u32(&[0x78, 0x56, 0x34, 0x12], 0), Some(0x1234_5678));
    assert_eq!(read_u32(&[9, 0xFF, 0xFF, 0xFF, 0xFF], 1), Some(u32::MAX));
    assert_eq!(read_u32(&[1, 2, 3, 4], 1), None);
    assert_eq!(read_u32(&[1, 2, 3], 0), None);
    assert_eq!(read_u32(&[], usize::MAX), None);
    assert_eq!(read_units(&[0x41, 0x00, 0x34, 0x12, 0, 0, 0x42, 0], 0), vec![0x41, 0x1234]);
    assert_eq!(read_units(&[0x41, 0x00], 1), Vec::<u16>::new());
}

#[test]
fn a_page_is_a_run_of_the_candidates() {
    let s = state(0, 1, 2, &["a", "b", "c", "d"]);
    assert_eq!(s.page_items(), ["b", "c"]);
    assert_eq!(state(0, 3, 9, &["a", "b", "c", "d"]).page_items(), ["d"]);
    assert!(state(0, 4, 9, &["a", "b", "c", "d"]).page_items().is_empty());
    assert!(state(0, 5, 9, &["a", "b", "c", "d"]).page_items().is_empty());
    assert!(state(0, u32::MAX, u32::MAX, &["a"]).page_items().is_empty());
    assert!(state(0, 0, 0, &["a"]).page_items().is_empty());
}

#[test]
fn a_page_is_found_where_the_candidates_at_hand_begin() {
    let mut s = state(10, 9, 2, &["j", "k", "l"]);
    s.first = 9;
    assert_eq!(s.page_items(), ["j", "k"]);
    assert_eq!(s.page_selection(), Some(1));
    s.first = 8;
    assert_eq!(s.page_items(), ["k", "l"]);
    s.first = 10;
    assert!(s.page_items().is_empty());
    s.first = 0;
    assert!(s.page_items().is_empty());
}

#[test]
fn the_selection_is_found_on_its_page() {
    let s = state(10, 9, 9, &["a", "b", "c", "d", "e", "f", "g", "h", "i", "j", "k"]);
    assert_eq!(s.page_selection(), Some(1));
    assert_eq!(s.page_items()[s.page_selection().unwrap()], "k");
    assert_eq!(state(8, 9, 9, &["a"]).page_selection(), None);
    assert_eq!(state(18, 9, 9, &["a"]).page_selection(), None);
    assert_eq!(state(9, 9, 9, &["a"]).page_selection(), Some(0));
    assert_eq!(state(17, 9, 9, &["a"]).page_selection(), Some(8));
    assert_eq!(state(0, 0, 0, &["a"]).page_selection(), None);
}

#[test]
fn the_end_of_a_page_has_to_fit() {
    assert!(state(0, 0, u32::MAX, &[]).page_end_fits());
    assert!(!state(u32::MAX, 1, u32::MAX, &[]).page_end_fits());
    assert!(state(0, 1, u32::MAX, &[]).page_end_fits());
    assert_eq!(state(0, 1, u32::MAX, &[]).page_selection(), None);
}

#[test]
fn a_composition_takes_half_as_many_units_as_bytes() {
    assert_eq!(composition_room(0), None);
    assert_eq!(composition_room(-1), None);
    assert_eq!(composition_room(1), Some(0));
    assert_eq!(composition_room(7), Some(3));
    assert_eq!(composition_room(4096), Some(2048));
    assert_eq!(composition_room(4097), None);
}

#[test]
fn a_composition_is_as_long_as_the_system_says() {
    let buf = wide("\u{310B}\u{3127}\u{02C7}");
    assert_eq!(read_composition(&buf, 6), "\u{310B}\u{3127}\u{02C7}");
    assert_eq!(read_composition(&buf, 4), "\u{310B}\u{3127}");
    assert_eq!(read_composition(&buf, 5), "\u{310B}\u{3127}");
    assert_eq!(read_composition(&buf, 100), "\u{310B}\u{3127}\u{02C7}");
    assert_eq!(read_composition(&buf, 0), "");
    assert_eq!(read_composition(&buf, -1), "");
    assert_eq!(read_composition(&[0xD800], 2), "\u{FFFD}");
}

#[test]
fn a_list_takes_as_many_bytes_as_the_system_says() {
    assert_eq!(list_room(0), None);
    assert_eq!(list_room(1), Some(1));
    assert_eq!(list_room(32768), Some(32768));
    assert_eq!(list_room(32769), None);
}

#[test]
fn a_list_that_was_not_filled_is_not_read() {
    let bytes = list(1, 0, 0, 9, &[wide("a")]);
    assert!(read_candidate_list(&bytes, 0).is_none());
    assert!(read_candidate_list(&bytes, 1).is_some());
    assert!(read_candidate_list(&bytes[..4], 4).is_none());
}

#[test]
fn there_is_no_state_without_a_list() {
    assert!(fetch_ime_state("x".to_string(), None).is_none());
    let s = fetch_ime_state("x".to_string(), Some((5, 4, 3, 2, vec!["a".to_string()]))).unwrap();
    assert_eq!(s.composition, "x");
    assert_eq!((s.total, s.selection, s.page_start, s.page_size), (5, 4, 3, 2));
    assert_eq!((s.items, s.first), (vec!["a".to_string()], 0));
}

#[test]
fn the_size_and_the_style_of_a_list_are_ignored() {
    let mut bytes = list(2, 1, 0, 9, &[wide("a"), wide("bc")]);
    let expected = parse_candlist(&bytes).unwrap();
    for b in &mut bytes[..8] {
        *b = !*b;
    }
    assert_eq!(parse_candlist(&bytes).unwrap(), expected);
}

#[test]
fn a_new_state_is_empty() {
    let s = ImeState::default();
    assert_eq!(s.composition, "");
    assert_eq!((s.total, s.selection, s.page_start, s.page_size), (0, 0, 0, 0));
    assert!(s.items.is_empty());
    assert!(s.clone().page_items().is_empty());
}
