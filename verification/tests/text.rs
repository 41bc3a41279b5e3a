use libmm::text::{contains_sub, format_usize, parse_usize, str_eq};

#[test]
fn numbers_format_in_decimal() {
    assert_eq!(format_usize(0), "0");
    assert_eq!(format_usize(7), "7");
    assert_eq!(format_usize(603), "603");
    assert_eq!(format_usize(120540), "120540");
}

#[test]
fn numbers_parse_from_decimal() {
    assert_eq!(parse_usize("0"), Some(0));
    assert_eq!(parse_usize("1999"), Some(1999));
    assert_eq!(parse_usize(""), None);
    assert_eq!(parse_usize("12a"), None);
    assert_eq!(parse_usize("99999999999999999999999999"), None);
}

#[test]
fn text_comparison_is_by_characters() {
    assert!(str_eq("same", "same"));
    assert!(!str_eq("same", "same "));
    assert!(!str_eq("left", "right"));
}

#[test]
fn substring_search_finds_runs() {
    assert!(contains_sub("V_MPEGH/ISO/HEVC", "HEVC"));
    assert!(!contains_sub("V_VP9", "HEVC"));
    assert!(contains_sub("anything", ""));
}
