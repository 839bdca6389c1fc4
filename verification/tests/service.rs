use systemctl_manager::annotation::{Annotation, AnnotationType};
use systemctl_manager::service::Service;
use systemctl_manager::strings::{
    first_word_of, fit_to_width, pad_right, parse_decimal, push_decimal, push_right_aligned,
};

fn mark(kind: AnnotationType, start: usize, end: usize) -> Annotation {
    Annotation { annotation_type: kind, start, end }
}

#[test]
fn the_name_is_the_first_word_of_the_line() {
    let s = Service::new(String::from("alpha.service   loaded active running Alpha daemon"));
    assert_eq!(s.extract_name(), "alpha.service");
    assert!(!s.has_empty_name());
    assert_eq!(s.line(), "alpha.service   loaded active running Alpha daemon");
}

#[test]
fn leading_white_space_is_passed_over_for_the_name() {
    let s = Service::new(String::from("  \tbeta.service loaded"));
    assert_eq!(s.extract_name(), "beta.service");
    assert!(s.name_starts_with("beta"));
    assert!(!s.starts_with("beta"));
    assert!(s.starts_with("  \tbeta"));
}

#[test]
fn a_line_of_white_space_has_no_name() {
    assert!(Service::new(String::from("    ")).has_empty_name());
    assert!(Service::new(String::new()).has_empty_name());
}

#[test]
fn first_word_of_stops_at_white_space() {
    assert_eq!(first_word_of("one two"), "one");
    assert_eq!(first_word_of("one\ttwo"), "one");
    assert_eq!(first_word_of("one\ntwo"), "one");
    assert_eq!(first_word_of(" one"), "one");
    assert_eq!(first_word_of("one"), "one");
    assert_eq!(first_word_of("gr\u{fc}n blau"), "gr\u{fc}n");
    assert_eq!(first_word_of(""), "");
}

#[test]
fn len_counts_bytes() {
    assert_eq!(Service::new(String::from("abc")).len(), 3);
    assert_eq!(Service::new(String::from("gr\u{fc}n")).len(), 5);
}

#[test]
fn contains_is_byte_exact_and_case_sensitive() {
    let s = Service::new(String::from("alpha.service loaded"));
    assert!(s.contains("service"));
    assert!(s.contains("a.s"));
    assert!(s.contains(""));
    assert!(!s.contains("Service"));
    assert!(!s.contains("loaded!"));
}

#[test]
fn find_all_reports_offsets_in_the_line() {
    let s = Service::new(String::from("abcabcabc"));
    assert_eq!(s.find_all("abc", 0..9), vec![0, 3, 6]);
    assert_eq!(s.find_all("abc", 1..9), vec![3, 6]);
    assert_eq!(s.find_all("abc", 0..8), vec![0, 3]);
    assert_eq!(s.find_all("abc", 3..100), vec![3, 6]);
    assert_eq!(s.find_all("bc", 2..6), vec![4]);
}

#[test]
fn find_all_finds_nothing_in_a_range_that_ends_before_it_starts() {
    let s = Service::new(String::from("abcabcabc"));
    assert_eq!(s.find_all("abc", 5..2), Vec::<usize>::new());
    assert_eq!(s.find_all("abc", 10..20), Vec::<usize>::new());
    assert_eq!(s.find_all("", 0..9), Vec::<usize>::new());
}

#[test]
fn get_annotated_string_carries_the_annotations_that_fit() {
    let s = Service::new(String::from("hello"));
    let list = vec![
        mark(AnnotationType::Match, 0, 2),
        mark(AnnotationType::Selected, 2, 9),
        mark(AnnotationType::Selected, 2, 5),
        mark(AnnotationType::Match, 3, 3),
    ];
    let a = s.get_annotated_string(Some(&list));
    assert_eq!(a.as_bytes(), b"hello");
    assert_eq!(a.annotations(), &vec![mark(AnnotationType::Match, 0, 2), mark(AnnotationType::Selected, 2, 5)]);
    let plain = s.get_annotated_string(None);
    assert_eq!(plain.as_bytes(), b"hello");
    assert!(plain.annotations().is_empty());
}

#[test]
fn a_clone_is_the_same_item() {
    let s = Service::new(String::from("alpha.service loaded"));
    let t = s.clone();
    assert_eq!(t.extract_name(), "alpha.service");
    assert_eq!(t.line(), "alpha.service loaded");
}

#[test]
fn pad_right_appends_spaces() {
    assert_eq!(pad_right("ab", 3), "ab   ");
    assert_eq!(pad_right("ab", 0), "ab");
    assert_eq!(pad_right("", 2), "  ");
}

#[test]
fn push_decimal_writes_the_digits() {
    let mut s = String::from("n=");
    push_decimal(&mut s, 0);
    assert_eq!(s, "n=0");
    push_decimal(&mut s, 7);
    push_decimal(&mut s, 10);
    push_decimal(&mut s, 4096);
    assert_eq!(s, "n=07104096");
    let mut t = String::new();
    push_decimal(&mut t, usize::MAX);
    assert_eq!(t, format!("{}", usize::MAX));
}

#[test]
fn parse_decimal_reads_digits_only() {
    assert_eq!(parse_decimal("12"), Some(12));
    assert_eq!(parse_decimal("0"), Some(0));
    assert_eq!(parse_decimal("007"), Some(7));
    assert_eq!(parse_decimal(""), None);
    assert_eq!(parse_decimal("1a"), None);
    assert_eq!(parse_decimal("-1"), None);
    assert_eq!(parse_decimal(" 1"), None);
}

#[test]
fn parse_decimal_fails_where_the_number_does_not_fit() {
    let max = format!("{}", usize::MAX);
    assert_eq!(parse_decimal(&max), Some(usize::MAX));
    let mut too_long = max.clone();
    too_long.push('0');
    assert_eq!(parse_decimal(&too_long), None);
    assert_eq!(parse_decimal("99999999999999999999999999999999"), None);
}

#[test]
fn push_right_aligned_pads_on_the_left() {
    let mut s = String::from("NORMAL");
    push_right_aligned(&mut s, "1/3", 6);
    assert_eq!(s, "NORMAL   1/3");
    let mut t = String::new();
    push_right_aligned(&mut t, "hello", 3);
    assert_eq!(t, "hello");
    let mut u = String::new();
    push_right_aligned(&mut u, "\u{fc}", 3);
    assert_eq!(u, "  \u{fc}");
}

#[test]
fn fit_to_width_pads_or_cuts_to_the_width() {
    assert_eq!(fit_to_width("abc", 5), "abc  ");
    assert_eq!(fit_to_width("abc", 3), "abc");
    assert_eq!(fit_to_width("abcdef", 3), "abc");
    assert_eq!(fit_to_width("abc", 0), "");
    assert_eq!(fit_to_width("", 2), "  ");
    assert_eq!(fit_to_width("gr\u{fc}n", 3), "gr\u{fc}");
    assert_eq!(fit_to_width("gr\u{fc}n", 6), "gr\u{fc}n  ");
    assert_eq!(fit_to_width("NORMAL 1/2", 12), format!("{:12.12}", "NORMAL 1/2"));
    assert_eq!(fit_to_width("NORMAL 1/2", 4), format!("{:4.4}", "NORMAL 1/2"));
}
