use tat::navparagraph::TatNavigableParagraph;
use tat::types::{TatNavHorizontal, TatNavVertical};

#[test]
fn navparagraph_test_new() {
    let np = TatNavigableParagraph::new("text".to_string());
    assert_eq!(np.title(), None);
    assert_eq!(np.total_lines(), 1);
    assert_eq!(np.max_line_len(), 4);
    assert_eq!(np.text(), "text");
    assert_eq!(np.scroll_offset_v(), 0);
    assert_eq!(np.scroll_offset_h(), 0);
    assert_eq!(np.visible_rows(), 0);
    assert_eq!(np.visible_cols(), 0);
}

#[test]
fn test_with_title() {
    let np = TatNavigableParagraph::new("text".to_string()).with_title("title".to_string());
    assert_eq!(np.title(), Some(&"title".to_string()));
}

#[test]
fn test_total_lines() {
    let np = TatNavigableParagraph::new("line1\nline2\nline3".to_string());

    assert_eq!(np.total_lines(), 3);
}

#[test]
fn test_max_line_len() {
    let np = TatNavigableParagraph::new("short\ntiny\nlongest".to_string());

    assert_eq!(np.max_line_len(), 7);
}

#[test]
fn test_last_scrollable_row() {
    {
        let mut np = TatNavigableParagraph::new("short\ntiny\nlongest".to_string());

        np.set_visible_rows(2);

        assert_eq!(np.last_scrollable_row(), 1);
    }

    {
        let mut np = TatNavigableParagraph::new("short\ntiny\nlongest".to_string());

        np.set_visible_rows(6);

        assert_eq!(np.last_scrollable_row(), 0);
    }
}

#[test]
fn test_last_scrollable_col() {
    {
        let mut np = TatNavigableParagraph::new("short\ntiny\nlongest".to_string());

        np.set_visible_cols(5);

        assert_eq!(np.last_scrollable_col(), 2);
    }

    {
        let mut np = TatNavigableParagraph::new("short\ntiny\nlongest".to_string());

        np.set_visible_cols(10);

        assert_eq!(np.last_scrollable_col(), 0);
    }
}

#[test]
fn test_nav_h() {
    let mut np = TatNavigableParagraph::new("short\ntiny\nlongest\nareallylongline".to_string());

    np.set_visible_cols(5);

    np.nav_h(TatNavHorizontal::LeftOne);
    assert_eq!(np.scroll_offset_h(), 0);

    np.nav_h(TatNavHorizontal::RightOne);
    assert_eq!(np.scroll_offset_h(), 1);

    np.nav_h(TatNavHorizontal::RightOne);
    assert_eq!(np.scroll_offset_h(), 2);

    np.nav_h(TatNavHorizontal::Home);
    assert_eq!(np.scroll_offset_h(), 0);

    np.nav_h(TatNavHorizontal::RightOne);
    np.nav_h(TatNavHorizontal::RightOne);
    np.nav_h(TatNavHorizontal::RightOne);
    assert_eq!(np.scroll_offset_h(), 3);

    np.nav_h(TatNavHorizontal::LeftOne);
    np.nav_h(TatNavHorizontal::LeftOne);
    np.nav_h(TatNavHorizontal::LeftOne);
    assert_eq!(np.scroll_offset_h(), 0);

    np.nav_h(TatNavHorizontal::End);
    assert_eq!(np.scroll_offset_h(), 10);

    np.nav_h(TatNavHorizontal::RightOne);
    assert_eq!(np.scroll_offset_h(), 10);
}

#[test]
fn test_nav_v() {
    let mut np = TatNavigableParagraph::new(
        "line
            line
            line
            line
            line
            line
            line
            line
            line
            line
            line
            line
            line
            line
            line
            line"
            .to_string(),
    );

    np.set_visible_rows(4);
    assert_eq!(np.scroll_offset_v(), 0);

    np.nav_v(TatNavVertical::UpOne);
    assert_eq!(np.scroll_offset_v(), 0);

    np.nav_v(TatNavVertical::DownOne);
    assert_eq!(np.scroll_offset_v(), 1);

    for _ in 0..17 {
        np.nav_v(TatNavVertical::DownOne);
    }
    assert_eq!(np.scroll_offset_v(), 12);

    np.nav_v(TatNavVertical::First);
    assert_eq!(np.scroll_offset_v(), 0);

    np.nav_v(TatNavVertical::Last);
    assert_eq!(np.scroll_offset_v(), 12);

    np.nav_v(TatNavVertical::UpHalfParagraph);
    assert_eq!(np.scroll_offset_v(), 10);

    np.nav_v(TatNavVertical::UpParagraph);
    assert_eq!(np.scroll_offset_v(), 6);

    np.nav_v(TatNavVertical::UpParagraph);
    np.nav_v(TatNavVertical::UpParagraph);
    np.nav_v(TatNavVertical::UpParagraph);
    np.nav_v(TatNavVertical::UpParagraph);
    assert_eq!(np.scroll_offset_v(), 0);

    np.nav_v(TatNavVertical::DownHalfParagraph);
    assert_eq!(np.scroll_offset_v(), 2);

    for _ in 0..6 {
        np.nav_v(TatNavVertical::DownHalfParagraph);
    }
    assert_eq!(np.scroll_offset_v(), 12);
}

#[test]
fn paragraph_lines_end_at_newlines_and_carriage_returns() {
    let np = TatNavigableParagraph::new("ab\r\ncd\n\nlast\n".to_string());
    assert_eq!(np.total_lines(), 4);
    assert_eq!(np.max_line_len(), 4);
    let empty = TatNavigableParagraph::new(String::new());
    assert_eq!(empty.total_lines(), 0);
    assert_eq!(empty.max_line_len(), 0);
}

#[test]
fn paragraph_longest_line_counts_characters() {
    // "ää" has two characters in four bytes, "abc" three characters in three bytes: the widest
    // line is measured in characters
    let np = TatNavigableParagraph::new("ää\nabc".to_string());
    assert_eq!(np.max_line_len(), 3);
    let np = TatNavigableParagraph::new("abc\näää".to_string());
    assert_eq!(np.max_line_len(), 3);
    let np = TatNavigableParagraph::new("ab\näää".to_string());
    assert_eq!(np.max_line_len(), 3);
    let np = TatNavigableParagraph::new("é".to_string());
    assert_eq!(np.max_line_len(), 1);
}

#[test]
fn paragraph_does_not_scroll_when_text_fits() {
    let mut np = TatNavigableParagraph::new("a\nb\nc".to_string());
    np.set_visible_rows(3);
    np.nav_v(TatNavVertical::DownOne);
    np.nav_v(TatNavVertical::Last);
    assert_eq!(np.scroll_offset_v(), 0);
    assert!(np.nav_v_allowed(TatNavVertical::Specific(2)));
    np.set_visible_rows(2);
    assert!(!np.nav_v_allowed(TatNavVertical::Specific(2)));
    assert!(np.nav_v_allowed(TatNavVertical::DownOne));
}

#[test]
fn paragraph_down_then_up_returns() {
    let mut np = TatNavigableParagraph::new("1\n2\n3\n4\n5\n6\n7\n8".to_string());
    np.set_visible_rows(3);
    np.nav_v(TatNavVertical::DownOne);
    np.nav_v(TatNavVertical::DownOne);
    let before = np.scroll_offset_v();
    np.nav_v(TatNavVertical::DownOne);
    np.nav_v(TatNavVertical::UpOne);
    assert_eq!(np.scroll_offset_v(), before);
    np.nav_v(TatNavVertical::MouseScrollDown);
    assert_eq!(np.scroll_offset_v(), 3);
    np.nav_v(TatNavVertical::MouseScrollUp);
    assert_eq!(np.scroll_offset_v(), 2);
}
