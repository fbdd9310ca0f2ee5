use tat::layout::{
    main_menu_areas, number_input_area, popup_area, table_rects, table_rects_from_parts,
    text_area_dimensions,
};
use tat::table::TatRect;

#[test]
fn test_table_rect() {
    let area = TatRect::new(0, 0, 400, 300);
    {
        let (table_rect, feature_col_area, scroll_v_area, scroll_h_area) = table_rects(area, false).unwrap();
        assert_eq!(table_rect, TatRect::new(11, 0, 388, 299));
        assert_eq!(feature_col_area, TatRect::new(0, 0, 11, 299));
        assert_eq!(scroll_v_area, TatRect::new(399, 0, 1, 299));
        assert_eq!(scroll_h_area, TatRect::new(0, 299, 400, 1));
    }
    {
        let (table_rect, feature_col_area, scroll_v_area, scroll_h_area) = table_rects(area, true).unwrap();
        assert_eq!(table_rect, TatRect::new(11, 1, 389, 300));
        assert_eq!(feature_col_area, TatRect::new(0, 1, 11, 299));
        assert!(scroll_v_area.is_empty());
        assert!(scroll_h_area.is_empty());
    }
}

#[test]
fn table_rects_of_small_area() {
    let (table_rect, feature_col_area, scroll_v_area, scroll_h_area) =
        table_rects(TatRect::new(0, 0, 250, 20), false).unwrap();
    assert_eq!(table_rect, TatRect::new(11, 0, 238, 19));
    assert_eq!(feature_col_area, TatRect::new(0, 0, 11, 19));
    assert_eq!(scroll_v_area, TatRect::new(249, 0, 1, 19));
    assert_eq!(scroll_h_area, TatRect::new(0, 19, 250, 1));
}

#[test]
fn test_main_menu_areas() {
    let (header_area, dataset_area, list_area, info_area, preview_table_area) =
        main_menu_areas(TatRect::new(0, 0, 400, 300));
    assert_eq!(header_area, TatRect::new(0, 0, 400, 2));
    assert_eq!(dataset_area, TatRect::new(0, 2, 400, 4));
    assert_eq!(list_area, TatRect::new(0, 6, 57, 294));
    assert_eq!(info_area, TatRect::new(57, 6, 114, 294));
    assert_eq!(preview_table_area, TatRect::new(171, 6, 229, 294));
}

#[test]
fn test_number_input_area() {
    let ni_area = number_input_area(TatRect::new(0, 0, 400, 300), 30);
    assert_eq!(ni_area, TatRect::new(140, 148, 120, 5));
}

#[test]
fn test_popup_area() {
    let area = popup_area(TatRect::new(0, 0, 400, 300), 70, 70);
    assert_eq!(area, TatRect::new(60, 45, 280, 210));
}

#[test]
fn text_area_without_scrollbars() {
    let (cols, has_h, rows, has_v) = text_area_dimensions(&TatRect::new(0, 0, 20, 10), 18, 8);
    assert_eq!((cols, has_h, rows, has_v), (18, false, 8, false));
}

#[test]
fn text_area_with_both_scrollbars() {
    let (cols, has_h, rows, has_v) = text_area_dimensions(&TatRect::new(0, 0, 20, 10), 19, 8);
    assert_eq!((cols, has_h, rows, has_v), (17, true, 7, true));
}

#[test]
fn text_area_with_vertical_scrollbar_only() {
    let (cols, has_h, rows, has_v) = text_area_dimensions(&TatRect::new(0, 0, 20, 10), 18, 9);
    assert_eq!((cols, has_h, rows, has_v), (17, false, 8, true));
}

#[test]
fn text_area_too_small_for_borders() {
    let (cols, has_h, rows, has_v) = text_area_dimensions(&TatRect::new(0, 0, 1, 1), 0, 0);
    assert_eq!((cols, has_h, rows, has_v), (0, false, 0, false));
}

#[test]
fn preview_table_of_highest_area_reaches_its_bottom() {
    // the free row on top leaves the table's part a row short of the area, so the table can
    // reach one row further down
    let rects = table_rects(TatRect::new(0, 0, 100, u16::MAX), true).unwrap();
    assert_eq!(rects.0, TatRect::new(11, 1, 89, u16::MAX));
    assert_eq!(rects.1, TatRect::new(0, 1, 11, u16::MAX - 1));
}

#[test]
fn table_rects_are_made_from_the_parts_of_the_layout() {
    let rows = [TatRect::new(0, 0, 40, 9), TatRect::new(0, 9, 40, 1)];
    let cols = [TatRect::new(0, 0, 11, 9), TatRect::new(11, 0, 28, 9), TatRect::new(39, 0, 1, 9)];
    assert_eq!(
        table_rects_from_parts(&rows, &cols, false),
        (cols[1], cols[0], cols[2], rows[1])
    );
    let rows = [TatRect::new(0, 0, 40, 1), TatRect::new(0, 1, 40, 9)];
    let cols = [TatRect::new(0, 1, 11, 9), TatRect::new(11, 1, 29, 9)];
    let (table, fid_col, v_scroll, h_scroll) = table_rects_from_parts(&rows, &cols, true);
    assert_eq!(table, TatRect::new(11, 1, 29, 10));
    assert_eq!(fid_col, cols[0]);
    assert!(v_scroll.is_empty());
    assert!(h_scroll.is_empty());
}

#[test]
fn layout_parts_stay_inside_their_area() {
    let area = TatRect::new(3, 4, 11, 5);
    let (table, fid_col, v_scroll, h_scroll) = table_rects(area, false).unwrap();
    for r in [table, fid_col, v_scroll, h_scroll] {
        assert!(r.x >= 3 && r.x + r.width <= 14 && r.y >= 4 && r.y + r.height <= 9);
    }
    let p = popup_area(area, 70, 70);
    assert!(p.x >= 3 && p.x + p.width <= 14 && p.y >= 4 && p.y + p.height <= 9);
}
