use resource_loader::text::{LineMarks, TextOSD};

#[test]
fn new_text_is_empty() {
    let osd = TextOSD::new();
    assert!(osd.is_empty());
    assert_eq!(osd.line_count(), 0);
    assert_eq!(osd.highlighted_line(), None);
    assert_eq!(osd.cursor(), None);
}

#[test]
fn padding_an_empty_text_adds_nothing() {
    let mut osd = TextOSD::new();
    osd.pad_if_nonempty();
    assert!(osd.is_empty());
}

#[test]
fn padding_a_nonempty_text_adds_a_blank_line() {
    let mut osd = TextOSD::new();
    osd.add_line("first".to_string());
    osd.pad_if_nonempty();
    assert_eq!(osd.line_count(), 2);
    assert_eq!(osd.line(0), "first");
    assert_eq!(osd.line(1), "");
    assert!(!osd.is_empty());
}

#[test]
fn cursor_points_at_the_line_it_came_with() {
    let mut osd = TextOSD::new();
    osd.add_line("a".to_string());
    osd.add_line_with_cursor("hello".to_string(), 5);
    osd.add_line("b".to_string());
    assert_eq!(osd.cursor(), Some((1, 5)));
    assert_eq!(osd.highlighted_line(), None);
    assert_eq!(osd.line(1), "hello");
    assert_eq!(osd.line_count(), 3);
}

#[test]
fn highlight_points_at_the_line_it_came_with() {
    let mut osd = TextOSD::new();
    osd.add_line("a".to_string());
    osd.add_line("b".to_string());
    osd.add_highlighted_line("c".to_string());
    assert_eq!(osd.highlighted_line(), Some(2));
    assert_eq!(osd.cursor(), None);
    assert_eq!(osd.line(2), "c");
}

#[test]
fn longest_line_is_the_last_of_the_longest() {
    let mut osd = TextOSD::new();
    osd.add_line("ab".to_string());
    osd.add_line("abcd".to_string());
    osd.add_line("a".to_string());
    osd.add_line("wxyz".to_string());
    osd.add_line("abc".to_string());
    assert_eq!(osd.longest_line(), 3);
}

#[test]
fn longest_line_counts_bytes() {
    let mut osd = TextOSD::new();
    osd.add_line("abc".to_string());
    osd.add_line("\u{e9}\u{e9}".to_string());
    assert_eq!(osd.longest_line(), 1);
}

#[test]
fn longest_line_of_a_single_line() {
    let mut osd = TextOSD::new();
    osd.add_line(String::new());
    assert_eq!(osd.longest_line(), 0);
}

#[test]
fn marks_follow_the_highlights() {
    let mut osd = TextOSD::new();
    osd.add_line("plain".to_string());
    osd.add_highlighted_line("chosen".to_string());
    osd.add_line_with_cursor("typed".to_string(), 5);
    assert_eq!(
        osd.marks(0),
        LineMarks { highlighted: false, cursor: None, cursor_at_end: false }
    );
    assert_eq!(
        osd.marks(1),
        LineMarks { highlighted: true, cursor: None, cursor_at_end: false }
    );
    assert_eq!(
        osd.marks(2),
        LineMarks { highlighted: false, cursor: Some(5), cursor_at_end: true }
    );
}

#[test]
fn cursor_inside_a_line_is_not_at_its_end() {
    let mut osd = TextOSD::new();
    osd.add_line_with_cursor("typed".to_string(), 2);
    assert_eq!(
        osd.marks(0),
        LineMarks { highlighted: false, cursor: Some(2), cursor_at_end: false }
    );
}
