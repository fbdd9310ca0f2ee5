use tat::layer::{TatFeature, TatLayer};
use tat::shared::MISSING_VALUE;
use tat::layout::table_rects;
use tat::table::{TatRect, TatTable};
use tat::types::{TatField, TatGeomField, TatNavHorizontal, TatNavVertical};

fn synthetic_layer(name: &str, index: usize, geoms: &[&str], fields: &[&str], count: u64) -> TatLayer {
    let geom_fields = geoms
        .iter()
        .map(|g| TatGeomField::new(g.to_string(), "Point".to_string(), None))
        .collect();
    let attribute_fields = fields.iter().map(|f| TatField::new(f.to_string(), 4)).collect();
    TatLayer::new(name.to_string(), None, geom_fields, attribute_fields, index, count)
}

fn synthetic_table() -> TatTable {
    let mut t = TatTable::new();
    t.add_layer(synthetic_layer("point", 0, &["geom"], &["field"], 3));
    t.add_layer(synthetic_layer("line", 1, &["geom"], &["field"], 2));
    t.add_layer(synthetic_layer("polygon", 2, &["geom"], &["field"], 2));
    t.add_layer(synthetic_layer("multipolygon", 3, &["geom"], &["field"], 2));
    t.add_layer(synthetic_layer(
        "nogeom",
        4,
        &[],
        &["text", "i32", "i64", "real", "date", "datetime", "bool", "blob", "json"],
        60,
    ));
    t.set_rects(table_rects(TatRect::new(0, 0, 250, 20), false).unwrap());
    t
}

#[test]
fn table_nav_v_scenario() {
    let mut t = synthetic_table();
    t.set_layer_index(4);

    assert_eq!(t.current_row(), 1);
    assert_eq!(t.max_top_row(), 46);
    assert_eq!(t.relative_highlighted_row(), 0);
    assert_eq!(t.visible_rows(), 15);
    assert_eq!(t.top_row(), 1);
    assert_eq!(t.bottom_row(), 15);
    assert!(!t.all_rows_visible());

    t.nav_v(TatNavVertical::Last);
    assert_eq!(t.current_row(), 60);
    assert_eq!(t.relative_highlighted_row(), 14);
    assert_eq!(t.top_row(), 46);
    assert_eq!(t.bottom_row(), 60);

    t.nav_v(TatNavVertical::UpOne);
    assert_eq!(t.current_row(), 59);
    assert_eq!(t.relative_highlighted_row(), 13);
    assert_eq!(t.top_row(), 46);

    t.nav_v(TatNavVertical::Specific(46));
    assert_eq!(t.current_row(), 46);
    assert_eq!(t.relative_highlighted_row(), 0);
    assert_eq!(t.top_row(), 46);

    t.nav_v(TatNavVertical::UpOne);
    assert_eq!(t.current_row(), 45);
    assert_eq!(t.relative_highlighted_row(), 0);
    assert_eq!(t.top_row(), 45);
    assert_eq!(t.bottom_row(), 59);

    t.nav_v(TatNavVertical::Last);
    t.nav_v(TatNavVertical::UpHalfParagraph);
    assert_eq!(t.current_row(), 53);
    assert_eq!(t.relative_highlighted_row(), 7);
    assert_eq!(t.top_row(), 46);

    t.nav_v(TatNavVertical::UpHalfParagraph);
    assert_eq!(t.current_row(), 46);
    assert_eq!(t.relative_highlighted_row(), 0);

    t.nav_v(TatNavVertical::DownOne);
    assert_eq!(t.current_row(), 47);
    assert_eq!(t.relative_highlighted_row(), 1);

    t.nav_v(TatNavVertical::UpHalfParagraph);
    assert_eq!(t.current_row(), 40);
    assert_eq!(t.relative_highlighted_row(), 1);
    assert_eq!(t.top_row(), 39);
    assert_eq!(t.bottom_row(), 53);

    for _ in 0..6 {
        t.nav_v(TatNavVertical::UpHalfParagraph);
    }
    assert_eq!(t.current_row(), 2);
    assert_eq!(t.relative_highlighted_row(), 1);
    assert_eq!(t.top_row(), 1);

    t.nav_v(TatNavVertical::First);
    assert_eq!(t.current_row(), 1);
    assert_eq!(t.relative_highlighted_row(), 0);

    t.nav_v(TatNavVertical::Last);
    t.nav_v(TatNavVertical::UpParagraph);
    assert_eq!(t.current_row(), 45);
    assert_eq!(t.relative_highlighted_row(), 14);
    assert_eq!(t.top_row(), 31);
    assert_eq!(t.bottom_row(), 45);

    t.nav_v(TatNavVertical::First);
    t.nav_v(TatNavVertical::DownOne);
    assert_eq!(t.current_row(), 2);

    t.nav_v(TatNavVertical::Specific(15));
    assert_eq!(t.current_row(), 15);
    assert_eq!(t.relative_highlighted_row(), 14);
    assert_eq!(t.top_row(), 1);

    t.nav_v(TatNavVertical::DownOne);
    assert_eq!(t.current_row(), 16);
    assert_eq!(t.relative_highlighted_row(), 14);
    assert_eq!(t.top_row(), 2);

    t.nav_v(TatNavVertical::DownHalfParagraph);
    assert_eq!(t.current_row(), 23);
    assert_eq!(t.top_row(), 9);

    t.nav_v(TatNavVertical::DownParagraph);
    assert_eq!(t.current_row(), 38);
    assert_eq!(t.top_row(), 24);

    t.nav_v(TatNavVertical::DownParagraph);
    t.nav_v(TatNavVertical::DownParagraph);
    t.nav_v(TatNavVertical::DownParagraph);
    assert_eq!(t.current_row(), 60);
    assert_eq!(t.relative_highlighted_row(), 14);
    assert_eq!(t.top_row(), 46);

    t.nav_v(TatNavVertical::MouseScrollUp);
    assert_eq!(t.current_row(), 55);
    assert_eq!(t.relative_highlighted_row(), 9);
    assert_eq!(t.top_row(), 46);

    t.nav_v(TatNavVertical::MouseScrollUp);
    t.nav_v(TatNavVertical::MouseScrollUp);
    assert_eq!(t.current_row(), 45);
    assert_eq!(t.relative_highlighted_row(), 4);
    assert_eq!(t.top_row(), 41);

    t.nav_v(TatNavVertical::MouseScrollDown);
    assert_eq!(t.current_row(), 50);
    assert_eq!(t.relative_highlighted_row(), 9);

    t.nav_v(TatNavVertical::MouseScrollDown);
    t.nav_v(TatNavVertical::MouseScrollDown);
    t.nav_v(TatNavVertical::MouseScrollDown);
    assert_eq!(t.current_row(), 60);
    assert_eq!(t.top_row(), 46);

    t.nav_v(TatNavVertical::Specific(5));
    assert_eq!(t.current_row(), 5);
    assert_eq!(t.relative_highlighted_row(), 4);
    assert_eq!(t.top_row(), 1);

    t.nav_v(TatNavVertical::Specific(55));
    assert_eq!(t.current_row(), 55);
    assert_eq!(t.relative_highlighted_row(), 9);
    assert_eq!(t.top_row(), 46);

    t.nav_v(TatNavVertical::Specific(25));
    assert_eq!(t.current_row(), 25);
    assert_eq!(t.relative_highlighted_row(), 9);
    assert_eq!(t.top_row(), 16);
    assert_eq!(t.bottom_row(), 30);
}

#[test]
fn table_nav_h_scenario() {
    let mut t = synthetic_table();
    t.set_layer_index(4);

    assert_eq!(t.current_column(), 0);
    assert_eq!(t.relative_highlighted_column(), 0);
    assert_eq!(t.visible_columns(), 7);
    assert_eq!(t.first_column(), 0);

    t.nav_h(TatNavHorizontal::RightOne);
    assert_eq!(t.current_column(), 1);
    assert_eq!(t.relative_highlighted_column(), 1);

    for _ in 0..5 {
        t.nav_h(TatNavHorizontal::RightOne);
    }
    assert_eq!(t.current_column(), 6);
    assert_eq!(t.relative_highlighted_column(), 6);
    assert_eq!(t.first_column(), 0);

    t.nav_h(TatNavHorizontal::RightOne);
    assert_eq!(t.current_column(), 7);
    assert_eq!(t.relative_highlighted_column(), 6);
    assert_eq!(t.first_column(), 1);

    t.nav_h(TatNavHorizontal::RightOne);
    assert_eq!(t.current_column(), 8);
    assert_eq!(t.first_column(), 2);

    t.nav_h(TatNavHorizontal::RightOne);
    assert_eq!(t.current_column(), 8);
    assert_eq!(t.first_column(), 2);

    t.nav_h(TatNavHorizontal::LeftOne);
    assert_eq!(t.current_column(), 7);
    assert_eq!(t.relative_highlighted_column(), 5);

    for _ in 0..5 {
        t.nav_h(TatNavHorizontal::LeftOne);
    }
    assert_eq!(t.current_column(), 2);
    assert_eq!(t.relative_highlighted_column(), 0);
    assert_eq!(t.first_column(), 2);

    t.nav_h(TatNavHorizontal::LeftOne);
    assert_eq!(t.current_column(), 1);
    assert_eq!(t.first_column(), 1);

    t.nav_h(TatNavHorizontal::LeftOne);
    t.nav_h(TatNavHorizontal::LeftOne);
    assert_eq!(t.current_column(), 0);
    assert_eq!(t.first_column(), 0);

    t.nav_h(TatNavHorizontal::End);
    assert_eq!(t.current_column(), 8);
    assert_eq!(t.relative_highlighted_column(), 6);
    assert_eq!(t.first_column(), 2);

    t.nav_h(TatNavHorizontal::Home);
    assert_eq!(t.current_column(), 0);
    assert_eq!(t.first_column(), 0);
}

#[test]
fn table_column_names_put_geometry_first() {
    let mut t = synthetic_table();
    assert_eq!(t.current_column_name(), Some("geom".to_string()));
    t.nav_h(TatNavHorizontal::RightOne);
    assert_eq!(t.current_column_name(), Some("field".to_string()));
    t.set_layer_index(4);
    t.nav_h(TatNavHorizontal::Home);
    assert_eq!(t.current_column_name(), Some("text".to_string()));
}

#[test]
fn table_without_layers_does_not_move() {
    let mut t = TatTable::new();
    t.nav_v(TatNavVertical::DownOne);
    t.nav_h(TatNavHorizontal::RightOne);
    assert_eq!(t.current_row(), 1);
    assert_eq!(t.current_column(), 0);
    assert_eq!(t.visible_rows(), 0);
    assert!(t.layer().is_none());
    assert_eq!(t.current_column_name(), None);
    assert_eq!(t.selected_value(), None);
}

#[test]
fn table_reset_selects_first_cell() {
    let mut t = synthetic_table();
    t.set_layer_index(4);
    t.nav_v(TatNavVertical::Specific(30));
    t.nav_h(TatNavHorizontal::End);
    t.reset();
    assert_eq!(t.current_row(), 1);
    assert_eq!(t.current_column(), 0);
    assert!(t.rects().0.is_empty());
}

#[test]
fn table_keeps_selected_feature_when_area_changes() {
    let mut t = synthetic_table();
    t.set_layer_index(4);
    t.nav_v(TatNavVertical::Specific(20));
    assert_eq!(t.current_row(), 20);
    let bigger = table_rects(TatRect::new(0, 0, 250, 30), false).unwrap();
    assert!(t.set_rects_allowed(bigger));
    t.set_rects(bigger);
    assert_eq!(t.visible_rows(), 25);
    assert_eq!(t.current_row(), 20);
}

#[test]
fn table_jump_past_last_feature_selects_last() {
    let mut t = synthetic_table();
    t.set_layer_index(4);
    assert!(t.nav_v_allowed(TatNavVertical::Specific(1000)));
    t.nav_v(TatNavVertical::Specific(1000));
    assert_eq!(t.current_row(), 60);
    assert!(!t.nav_v_allowed(TatNavVertical::Specific(0)));
}

#[test]
fn table_scrollbars_follow_the_view() {
    let mut t = synthetic_table();
    t.set_layer_index(4);
    t.nav_v(TatNavVertical::Last);
    assert_eq!(t.v_scroll().position, 46);
    assert_eq!(t.v_scroll().content_length, 46);
    t.nav_h(TatNavHorizontal::End);
    assert_eq!(t.h_scroll().position, 2);
    assert_eq!(t.h_scroll().content_length, 3);
}

#[test]
fn table_selected_value_needs_cached_feature_ids() {
    let mut t = synthetic_table();
    assert!(!t.selected_value_allowed());
    t.add_fid_cache(0, vec![1, 2, 4]);
    assert!(t.selected_value_allowed());
    assert_eq!(t.selected_value(), None);
    assert_eq!(t.layer().unwrap().fid_cache(), &[1, 2, 4]);
}

#[test]
fn table_down_then_up_returns_to_row() {
    let mut t = synthetic_table();
    t.set_layer_index(4);
    t.nav_v(TatNavVertical::Specific(30));
    let row = t.current_row();
    t.nav_v(TatNavVertical::DownOne);
    assert_eq!(t.current_row(), row + 1);
    t.nav_v(TatNavVertical::UpOne);
    assert_eq!(t.current_row(), row);
}

#[test]
fn table_shows_and_copies_the_values_of_held_features() {
    let mut t = synthetic_table();
    t.add_fid_cache(0, vec![1, 2, 4]);
    assert_eq!(t.missing_feature_ids(), vec![1, 2, 4]);
    t.add_feature(0, TatFeature::new(1, vec![Some("POINT (0 0)".to_string()), None]));
    t.add_feature(0, TatFeature::new(2, vec![Some("POINT (1 1)".to_string()), Some("213".to_string())]));
    assert_eq!(t.missing_feature_ids(), vec![4]);

    // the first row shows the feature with the first cached id
    assert_eq!(t.selected_value(), Some("POINT (0 0)".to_string()));
    t.nav_h(TatNavHorizontal::RightOne);
    assert_eq!(t.selected_value(), None);
    t.nav_v(TatNavVertical::DownOne);
    assert_eq!(t.selected_value(), Some("213".to_string()));

    assert!(t.contents_allowed());
    let (header, rows) = t.get_table();
    assert_eq!(header, vec!["geom".to_string(), "field".to_string()]);
    assert_eq!(rows.len(), 3);
    assert_eq!(rows[0], vec!["POINT (0 0)".to_string(), MISSING_VALUE.to_string()]);
    assert_eq!(rows[1], vec!["POINT (1 1)".to_string(), "213".to_string()]);
    assert_eq!(rows[2], vec![MISSING_VALUE.to_string(), MISSING_VALUE.to_string()]);
}

#[test]
fn table_rows_without_cached_ids_show_no_cells() {
    let mut t = synthetic_table();
    t.add_fid_cache(0, vec![1]);
    assert!(t.contents_allowed());
    let (_, rows) = t.get_table();
    assert_eq!(rows.len(), 3);
    assert_eq!(rows[0], vec![MISSING_VALUE.to_string(), MISSING_VALUE.to_string()]);
    assert!(rows[1].is_empty());
    assert!(rows[2].is_empty());
    assert_eq!(t.missing_feature_ids(), vec![1]);
}

#[test]
fn table_feature_column_lists_the_visible_numbers() {
    let t = synthetic_table();
    assert!(t.feature_column_allowed(false));
    let (block, header, numbers) = t.feature_column_layout(false).unwrap();
    assert_eq!(block, TatRect::new(0, 2, 11, 17));
    assert_eq!(header, TatRect::new(0, 2, 11, 1));
    assert_eq!(
        numbers,
        vec![
            (1, TatRect::new(0, 3, 11, 1)),
            (2, TatRect::new(0, 4, 11, 1)),
            (3, TatRect::new(0, 5, 11, 1)),
        ]
    );
    assert!(TatTable::new().feature_column_layout(true).is_none());
}
