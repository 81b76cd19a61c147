//! UTF-16 text and the questions asked of it.

use ime_overlay::text::{
    base_name, chars_of, contains, decode_chars, decode_string, ends_with, string_of, to_ascii_lower,
};

fn chars(text: &str) -> Vec<char> {
    text.chars().collect()
}

#[test]
fn units_decode_as_std_does() {
    let samples: Vec<Vec<u16>> = vec![
        vec![],
        vec![0x41],
        vec![0x4F60, 0x597D],
        vec![0xD83D, 0xDE00],
        vec![0xD800],
        vec![0xDC00],
        vec![0xD800, 0xD800, 0xDC00],
        vec![0xDC00, 0xD800],
        vec![0xD7FF, 0xE000, 0xFFFF],
        vec![0xDBFF, 0xDFFF],
        vec![0x41, 0xD800, 0x42, 0xDC00, 0x43],
        vec![0],
    ];
    for units in samples {
        assert_eq!(decode_string(&units), String::from_utf16_lossy(&units));
    }
}

#[test]
fn every_single_unit_decodes_as_std_does() {
    for u in 0..=0xFFFFu16 {
        assert_eq!(decode_string(&[u]), String::from_utf16_lossy(&[u]));
    }
}

#[test]
fn surrogate_pairs_at_the_edges_decode_as_std_does() {
    for hi in [0xD7FFu16, 0xD800, 0xD801, 0xDBFF, 0xDC00] {
        for lo in [0xDBFFu16, 0xDC00, 0xDC01, 0xDFFF, 0xE000] {
            let units = [hi, lo];
            assert_eq!(decode_string(&units), String::from_utf16_lossy(&units));
        }
    }
}

#[test]
fn a_pair_is_one_character() {
    assert_eq!(decode_chars(&[0xD83D, 0xDE00]), vec!['\u{1F600}']);
    assert_eq!(decode_chars(&[0xD83D]), vec!['\u{FFFD}']);
    assert_eq!(decode_chars(&[0xDE00, 0xD83D]), vec!['\u{FFFD}', '\u{FFFD}']);
}

#[test]
fn a_text_has_no_more_characters_than_units() {
    let units = [0xD83Du16, 0xDE00, 0x41, 0xD800];
    assert!(decode_chars(&units).len() <= units.len());
    assert_eq!(decode_chars(&units).len(), 3);
}

#[test]
fn plain_units_decode_one_by_one() {
    let units = [0x4Cu16, 0x55, 0x4E2D];
    assert_eq!(decode_chars(&units), vec!['L', 'U', '\u{4E2D}']);
}

#[test]
fn characters_make_a_string() {
    assert_eq!(string_of(&chars("abc\u{1F600}")), "abc\u{1F600}");
    assert_eq!(string_of(&[]), "");
    assert_eq!(chars_of("\u{4E2D}x"), vec!['\u{4E2D}', 'x']);
}

#[test]
fn only_ascii_capitals_are_made_small() {
    let text = "AZaz@[`{09\u{C4}\u{4E2D}";
    assert_eq!(string_of(&to_ascii_lower(&chars(text))), text.to_ascii_lowercase());
}

#[test]
fn parts_are_found_anywhere() {
    let text = chars("c:\\x\\msctf.dll");
    assert!(contains(&text, "msctf"));
    assert!(contains(&text, ".dll"));
    assert!(contains(&text, "c:"));
    assert!(contains(&text, ""));
    assert!(!contains(&text, "msctg"));
    assert!(!contains(&text, "c:\\x\\msctf.dll2"));
    assert!(!contains(&chars(""), "a"));
    assert!(contains(&chars(""), ""));
}

#[test]
fn endings_are_at_the_end() {
    assert!(ends_with(&chars("tcime.ime"), ".ime"));
    assert!(!ends_with(&chars("tcime.imex"), ".ime"));
    assert!(!ends_with(&chars("ime"), ".ime"));
    assert!(ends_with(&chars("x"), ""));
}

#[test]
fn a_file_name_stands_behind_the_last_backslash() {
    assert_eq!(string_of(&base_name(&chars("c:\\win\\imm32.dll"))), "imm32.dll");
    assert_eq!(string_of(&base_name(&chars("imm32.dll"))), "imm32.dll");
    assert_eq!(string_of(&base_name(&chars("c:\\win\\"))), "");
    assert_eq!(string_of(&base_name(&chars(""))), "");
    assert_eq!(string_of(&base_name(&chars("c:/win/imm32.dll"))), "c:/win/imm32.dll");
}

#[test]
fn a_text_that_was_encoded_is_read_back() {
    for text in ["", "abc", "\u{4F60}\u{597D}", "a\u{1F600}b\u{10FFFF}\u{FFFD}\u{D7FF}\u{E000}"] {
        let units: Vec<u16> = text.encode_utf16().collect();
        assert_eq!(decode_string(&units), text);
    }
}
