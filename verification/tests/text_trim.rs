use sigma_racer_vehicle::text::{is_white_space_char, same_chars, trims_to};

#[test]
fn white_space_matches_std() {
    for c in (0u32..0x3100).filter_map(char::from_u32) {
        assert_eq!(is_white_space_char(c), c.is_whitespace(), "{:#x}", c as u32);
    }
    for c in ['\u{feff}', '\u{200b}', '\u{180e}', 'a', '\u{10ffff}'] {
        assert_eq!(is_white_space_char(c), c.is_whitespace());
    }
}

#[test]
fn trims_to_agrees_with_std_trim() {
    let samples = ["", " ", "a", " a ", "\ta b\n", "\u{3000}x\u{85}", "ab", " a b c  "];
    for s in samples {
        for t in ["", "a", "a b", "x", "a b c", "ab"] {
            assert_eq!(trims_to(s, t), s.trim() == t, "{s:?} vs {t:?}");
        }
    }
}

#[test]
fn same_chars_is_exact() {
    assert!(same_chars("sim", "sim"));
    assert!(!same_chars("sim", "sim "));
    assert!(!same_chars("sim", "Sim"));
    assert!(same_chars("", ""));
    assert!(same_chars("ünï", "ünï"));
}
