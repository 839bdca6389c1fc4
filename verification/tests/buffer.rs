use systemctl_manager::annotation::{Annotation, AnnotationType};
use systemctl_manager::buffer::Buffer;
use systemctl_manager::highlighter::Highlighter;

fn lines(texts: &[&str]) -> Vec<String> {
    texts.iter().map(|t| String::from(*t)).collect()
}

fn names(buffer: &Buffer) -> Vec<String> {
    (0..buffer.height()).map(|i| buffer.get(i).unwrap().extract_name()).collect()
}

fn three() -> Buffer {
    Buffer::load(&lines(&["alpha.service", "beta.service", "alphabet.service"]), 0)
}

#[test]
fn a_new_buffer_is_empty() {
    let b = Buffer::new();
    assert_eq!(b.height(), 0);
    assert!(b.get(0).is_none());
    assert_eq!(b.get_selected_service_name(0), None);
    assert_eq!(b.search_forward("a", 0), None);
    assert_eq!(b.search_backward("a", 0), None);
}

#[test]
fn load_pads_each_line_to_the_width() {
    let b = Buffer::load(&lines(&["ab cd", "a-much-longer-line"]), 8);
    assert_eq!(b.height(), 2);
    assert_eq!(b.get(0).unwrap().line(), "ab cd   ");
    assert_eq!(b.get(0).unwrap().len(), 8);
    assert_eq!(b.get(1).unwrap().line(), "a-much-longer-line");
    assert_eq!(b.get(0).unwrap().extract_name(), "ab");
}

#[test]
fn load_pads_by_bytes() {
    let b = Buffer::load(&lines(&["gr\u{fc}n"]), 7);
    assert_eq!(b.get(0).unwrap().line(), "gr\u{fc}n  ");
    assert_eq!(b.get(0).unwrap().len(), 7);
}

#[test]
fn load_leaves_out_lines_without_a_name() {
    let b = Buffer::load(&lines(&["", "one.service x", "   ", "\t", "two.service y"]), 4);
    assert_eq!(names(&b), vec!["one.service", "two.service"]);
}

#[test]
fn filter_keeps_the_items_whose_name_begins_with_the_query() {
    let mut b = three();
    b.filter("alpha");
    assert_eq!(names(&b), vec!["alpha.service", "alphabet.service"]);
    assert_eq!(b.height(), 2);
    assert_eq!(b.get_selected_service_name(1), Some(String::from("alphabet.service")));
    assert_eq!(b.get_selected_service_name(2), None);
}

#[test]
fn filter_starts_from_all_items_each_time() {
    let mut b = three();
    b.filter("alphab");
    assert_eq!(names(&b), vec!["alphabet.service"]);
    b.filter("b");
    assert_eq!(names(&b), vec!["beta.service"]);
    b.filter("zeta");
    assert_eq!(b.height(), 0);
    b.filter("");
    assert_eq!(names(&b), vec!["alpha.service", "beta.service", "alphabet.service"]);
}

#[test]
fn filter_goes_by_the_name_and_not_by_the_rest_of_the_line() {
    let mut b = Buffer::load(&lines(&["one.service loaded", "two.service one"]), 0);
    b.filter("one.service l");
    assert_eq!(b.height(), 0);
    b.filter("o");
    assert_eq!(names(&b), vec!["one.service"]);
}

#[test]
fn a_longer_query_keeps_a_subsequence_of_what_a_shorter_one_keeps() {
    let all = lines(&["ab.service", "b.service", "abc.service", "a.service", "abd.service", "abc2.service"]);
    let queries = ["", "a", "ab", "abc", "abc2", "abc2.service", "abc2.servicex"];
    let mut last: Option<Vec<String>> = None;
    for q in queries {
        let mut b = Buffer::load(&all, 0);
        b.filter(q);
        let kept = names(&b);
        if let Some(before) = &last {
            let mut rest = before.iter();
            for name in &kept {
                assert!(rest.any(|other| other == name));
            }
        }
        last = Some(kept);
    }
    assert_eq!(last, Some(Vec::new()));
}

#[test]
fn search_forward_starts_at_from_and_wraps() {
    let b = Buffer::load(&lines(&["one", "two", "three", "two again"]), 0);
    assert_eq!(b.search_forward("two", 0), Some(1));
    assert_eq!(b.search_forward("two", 1), Some(1));
    assert_eq!(b.search_forward("two", 2), Some(3));
    assert_eq!(b.search_forward("one", 1), Some(0));
    assert_eq!(b.search_forward("one", 4), Some(0));
    assert_eq!(b.search_forward("two", 6), Some(3));
    assert_eq!(b.search_forward("four", 0), None);
}

#[test]
fn search_backward_starts_at_from_and_wraps() {
    let b = Buffer::load(&lines(&["one", "two", "three", "two again"]), 0);
    assert_eq!(b.search_backward("two", 3), Some(3));
    assert_eq!(b.search_backward("two", 2), Some(1));
    assert_eq!(b.search_backward("two", 0), Some(3));
    assert_eq!(b.search_backward("one", 0), Some(0));
    assert_eq!(b.search_backward("three", 1), Some(2));
    assert_eq!(b.search_backward("three", 9), Some(2));
    assert_eq!(b.search_backward("two", 9), Some(3));
    assert_eq!(b.search_backward("four", 2), None);
}

#[test]
fn search_with_an_empty_query_finds_nothing() {
    let b = three();
    for from in 0..5 {
        assert_eq!(b.search_forward("", from), None);
        assert_eq!(b.search_backward("", from), None);
    }
}

#[test]
fn search_for_the_full_text_of_an_item_finds_a_valid_index() {
    let texts = ["alpha.service", "beta.service", "alphabet.service"];
    let b = Buffer::load(&lines(&texts), 0);
    for text in texts {
        for from in 0..7 {
            let f = b.search_forward(text, from).unwrap();
            assert!(f < 3);
            assert!(b.get(f).unwrap().contains(text));
            let r = b.search_backward(text, from).unwrap();
            assert!(r < 3);
            assert!(b.get(r).unwrap().contains(text));
        }
    }
    assert_eq!(b.search_forward("alphabet.service", 0), Some(2));
    assert_eq!(b.search_backward("beta.service", 0), Some(1));
}

#[test]
fn search_goes_over_the_filtered_items_only() {
    let mut b = three();
    b.filter("alpha");
    assert_eq!(b.search_forward("beta", 0), None);
    assert_eq!(b.search_forward("alphabet", 0), Some(1));
    assert_eq!(b.search_backward("service", 0), Some(0));
    assert_eq!(b.search_forward("service", 2), Some(0));
}

#[test]
fn highlight_and_get_highlighted_string_go_by_the_active_collection() {
    let mut b = three();
    b.filter("alpha");
    let mut h = Highlighter::new(Some("bet"), 1);
    b.highlight(1, &mut h, true);
    b.highlight(5, &mut h, true);
    assert!(h.get_annotations(5).is_none());
    let s = b.get_highlighted_string(1, &h).unwrap();
    assert_eq!(s.as_bytes(), b"alphabet.service");
    assert_eq!(
        s.annotations(),
        &vec![
            Annotation { annotation_type: AnnotationType::Selected, start: 0, end: 5 },
            Annotation { annotation_type: AnnotationType::SelectedMatch, start: 5, end: 8 },
            Annotation { annotation_type: AnnotationType::Selected, start: 8, end: 16 },
        ]
    );
    let plain = b.get_highlighted_string(0, &h).unwrap();
    assert_eq!(plain.as_bytes(), b"alpha.service");
    assert!(plain.annotations().is_empty());
    assert!(b.get_highlighted_string(2, &h).is_none());
}
