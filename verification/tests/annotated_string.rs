use systemctl_manager::annotatedstring::AnnotatedString;
use systemctl_manager::annotation::{Annotation, AnnotationType};

fn mark(kind: AnnotationType, start: usize, end: usize) -> Annotation {
    Annotation { annotation_type: kind, start, end }
}

#[test]
fn from_holds_the_text_and_no_annotation() {
    let s = AnnotatedString::from("hello world");
    assert_eq!(s.as_bytes(), "hello world".as_bytes());
    assert_eq!(s.len(), 11);
    assert!(s.annotations().is_empty());
}

#[test]
fn replace_behind_an_annotation_leaves_it_unchanged() {
    let mut s = AnnotatedString::from("hello world");
    s.add_annotation(AnnotationType::Match, 0, 5);
    s.replace(6, 11, "earth!!");
    assert_eq!(s.as_bytes(), "hello earth!!".as_bytes());
    assert_eq!(s.annotations(), &vec![mark(AnnotationType::Match, 0, 5)]);
}

#[test]
fn replace_with_longer_text_moves_later_annotations() {
    let mut s = AnnotatedString::from("hello world");
    s.add_annotation(AnnotationType::Match, 6, 11);
    s.replace(0, 5, "goodbye");
    assert_eq!(s.as_bytes(), "goodbye world".as_bytes());
    assert_eq!(s.annotations(), &vec![mark(AnnotationType::Match, 8, 13)]);
}

#[test]
fn replace_with_shorter_text_moves_later_annotations_back() {
    let mut s = AnnotatedString::from("hello world");
    s.add_annotation(AnnotationType::Selected, 6, 11);
    s.replace(0, 5, "hi");
    assert_eq!(s.as_bytes(), "hi world".as_bytes());
    assert_eq!(s.annotations(), &vec![mark(AnnotationType::Selected, 3, 8)]);
}

#[test]
fn replace_inside_a_grown_range_clamps_to_the_old_end() {
    let mut s = AnnotatedString::from("hello world");
    s.add_annotation(AnnotationType::Match, 6, 11);
    s.replace(6, 11, "earth!!");
    assert_eq!(s.as_bytes(), "hello earth!!".as_bytes());
    assert_eq!(s.annotations(), &vec![mark(AnnotationType::Match, 8, 13)]);
}

#[test]
fn replace_drops_annotations_that_become_empty() {
    let mut s = AnnotatedString::from("hello world");
    s.add_annotation(AnnotationType::Match, 1, 4);
    s.add_annotation(AnnotationType::Match, 6, 11);
    s.replace(0, 5, "");
    assert_eq!(s.as_bytes(), " world".as_bytes());
    assert_eq!(s.annotations(), &vec![mark(AnnotationType::Match, 1, 6)]);
}

#[test]
fn replace_with_same_length_keeps_every_annotation() {
    let mut s = AnnotatedString::from("hello world");
    s.add_annotation(AnnotationType::Match, 0, 5);
    s.add_annotation(AnnotationType::Selected, 4, 8);
    s.add_annotation(AnnotationType::SelectedMatch, 6, 11);
    s.replace(3, 8, "LO WO");
    assert_eq!(s.as_bytes(), "helLO WOrld".as_bytes());
    assert_eq!(
        s.annotations(),
        &vec![
            mark(AnnotationType::Match, 0, 5),
            mark(AnnotationType::Selected, 4, 8),
            mark(AnnotationType::SelectedMatch, 6, 11),
        ]
    );
}

#[test]
fn replace_clamps_the_end_to_the_text() {
    let mut s = AnnotatedString::from("hello");
    s.replace(2, 100, "y");
    assert_eq!(s.as_bytes(), "hey".as_bytes());
}

#[test]
fn replace_with_start_behind_end_changes_nothing() {
    let mut s = AnnotatedString::from("hello");
    s.add_annotation(AnnotationType::Match, 0, 5);
    s.replace(4, 2, "xyz");
    assert_eq!(s.as_bytes(), "hello".as_bytes());
    s.replace(9, 12, "xyz");
    assert_eq!(s.as_bytes(), "hello".as_bytes());
    assert_eq!(s.annotations(), &vec![mark(AnnotationType::Match, 0, 5)]);
}

#[test]
fn annotations_stay_inside_the_text_after_many_edits() {
    let mut s = AnnotatedString::from("the quick brown fox jumps");
    s.add_annotation(AnnotationType::Match, 0, 3);
    s.add_annotation(AnnotationType::Match, 4, 9);
    s.add_annotation(AnnotationType::Selected, 10, 25);
    s.add_annotation(AnnotationType::SelectedMatch, 16, 19);
    let edits: [(usize, usize, &str); 6] =
        [(4, 9, "slow"), (0, 2, ""), (10, 40, "x"), (3, 3, "abcdef"), (0, 1, "zz"), (5, 9, "")];
    for (start, end, text) in edits {
        s.replace(start, end, text);
        for a in s.annotations() {
            assert!(a.start < a.end);
            assert!(a.end <= s.len());
        }
    }
}

#[test]
fn add_annotation_drops_ranges_outside_the_text() {
    let mut s = AnnotatedString::from("hello");
    s.add_annotation(AnnotationType::Match, 2, 2);
    s.add_annotation(AnnotationType::Match, 3, 6);
    s.add_annotation(AnnotationType::Match, 4, 1);
    assert!(s.annotations().is_empty());
    s.add_annotation(AnnotationType::Match, 0, 5);
    assert_eq!(s.annotations(), &vec![mark(AnnotationType::Match, 0, 5)]);
}

#[test]
fn truncate_left_until_removes_a_prefix() {
    let mut s = AnnotatedString::from("hello world");
    s.add_annotation(AnnotationType::Match, 0, 5);
    s.add_annotation(AnnotationType::Match, 6, 11);
    s.truncate_left_until(6);
    assert_eq!(s.as_bytes(), "world".as_bytes());
    assert_eq!(s.annotations(), &vec![mark(AnnotationType::Match, 0, 5)]);
}

#[test]
fn truncate_right_from_removes_a_suffix() {
    let mut s = AnnotatedString::from("hello world");
    s.add_annotation(AnnotationType::Match, 0, 5);
    s.add_annotation(AnnotationType::Match, 6, 11);
    s.truncate_right_from(5);
    assert_eq!(s.as_bytes(), "hello".as_bytes());
    assert_eq!(s.annotations(), &vec![mark(AnnotationType::Match, 0, 5)]);
}

fn part(start: usize, end: usize, kind: Option<AnnotationType>) -> systemctl_manager::annotatedstring::AnnotatedStringPart {
    systemctl_manager::annotatedstring::AnnotatedStringPart { start, end, annotation_type: kind }
}

#[test]
fn parts_of_plain_text_are_one_plain_part() {
    let s = AnnotatedString::from("hello");
    assert_eq!(s.parts(), vec![part(0, 5, None)]);
    assert!(AnnotatedString::from("").parts().is_empty());
}

#[test]
fn parts_follow_the_annotations_and_the_stretches_between_them() {
    let mut s = AnnotatedString::from("hello world!");
    s.add_annotation(AnnotationType::Match, 6, 11);
    s.add_annotation(AnnotationType::Selected, 1, 3);
    assert_eq!(
        s.parts(),
        vec![
            part(0, 1, None),
            part(1, 3, Some(AnnotationType::Selected)),
            part(3, 6, None),
            part(6, 11, Some(AnnotationType::Match)),
            part(11, 12, None),
        ]
    );
}

#[test]
fn the_last_annotation_that_covers_a_byte_decides_its_part() {
    let mut s = AnnotatedString::from("0123456789");
    s.add_annotation(AnnotationType::Selected, 0, 10);
    s.add_annotation(AnnotationType::Match, 0, 4);
    assert_eq!(
        s.parts(),
        vec![part(0, 4, Some(AnnotationType::Match)), part(4, 10, Some(AnnotationType::Selected))]
    );
}

#[test]
fn parts_cover_the_text_without_gap_or_overlap() {
    let mut s = AnnotatedString::from("the quick brown fox jumps over");
    s.add_annotation(AnnotationType::Match, 4, 9);
    s.add_annotation(AnnotationType::Selected, 0, 30);
    s.add_annotation(AnnotationType::SelectedMatch, 16, 19);
    s.add_annotation(AnnotationType::Match, 18, 22);
    s.add_annotation(AnnotationType::Match, 2, 6);
    let parts = s.parts();
    let mut at = 0;
    for p in &parts {
        assert_eq!(p.start, at);
        assert!(p.end > p.start);
        at = p.end;
    }
    assert_eq!(at, 30);
}
