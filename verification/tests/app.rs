use tat::app::{TatApp, TatAppAction, TatLayerSelectFocusedBlock, TatMenu, TatMouseEventKind};
use tat::dataset::{DatasetRequest, DatasetResponse};
use tat::layer::{TatFeature, TatLayer};
use tat::navparagraph::TatNavigableParagraph;
use tat::numberinput::{TatKeyCode, TatNumberInputResult};
use tat::table::TatRect;
use tat::types::{TatField, TatGeomField, TatNavHorizontal, TatNavVertical};

fn synthetic_layer(name: &str, index: usize, geoms: &[&str], fields: &[&str], count: u64) -> TatLayer {
    let geom_fields = geoms
        .iter()
        .map(|g| TatGeomField::new(g.to_string(), "Point".to_string(), None))
        .collect();
    let attribute_fields = fields.iter().map(|f| TatField::new(f.to_string(), 4)).collect();
    TatLayer::new(name.to_string(), None, geom_fields, attribute_fields, index, count)
}

fn basic_app(has_clipboard: bool) -> TatApp {
    let mut app = TatApp::new(has_clipboard);
    let layers = vec![
        synthetic_layer("point", 0, &["geom"], &["field"], 3),
        synthetic_layer("line", 1, &["geom"], &["field"], 2),
        synthetic_layer("polygon", 2, &["geom"], &["field"], 2),
        synthetic_layer("multipolygon", 3, &["geom"], &["field"], 2),
        synthetic_layer(
            "nogeom",
            4,
            &[],
            &["text", "i32", "i64", "real", "date", "datetime", "bool", "blob", "json"],
            60,
        ),
    ];
    let infos = layers
        .iter()
        .map(|l| (l.name().to_string(), TatNavigableParagraph::new(format!("- Name: {}\n", l.name()))))
        .collect();
    let counts: Vec<u64> = layers.iter().map(|l| l.feature_count()).collect();
    app.handle_dataset(DatasetResponse::DatasetInfo("- URI: \"basic.gpkg\"".to_string()));
    app.handle_dataset(DatasetResponse::LayerInfos(infos));
    for layer in layers {
        app.handle_dataset(DatasetResponse::Layer(layer));
    }
    for (i, count) in counts.iter().enumerate() {
        app.handle_dataset(DatasetResponse::FidCache(i, (1..=*count + 1).collect()));
    }
    app
}

fn open_full_table(app: &mut TatApp) {
    app.set_table_area(TatRect::new(0, 0, 250, 20));
    assert!(app.full_table_allowed());
    app.open_table();
}

#[test]
fn app_test_new() {
    let t = TatApp::new(false);
    assert_eq!(t.current_menu(), TatMenu::MainMenu);
    assert!(!t.quit());
    assert!(t.modal_popup().is_none());
    assert_eq!(t.focused_section(), TatLayerSelectFocusedBlock::LayerList);
    assert!(t.table_area().is_empty());
    assert!(t.number_input().is_none());
    assert_eq!(t.clipboard_feedback(), None);
}

#[test]
fn app_startup_requests() {
    let requests = TatApp::startup_requests();
    assert_eq!(requests.len(), 3);
    assert!(matches!(requests[0], DatasetRequest::DatasetInfo));
    assert!(matches!(requests[1], DatasetRequest::BuildLayers));
    assert!(matches!(requests[2], DatasetRequest::AllLayerInfos));
}

#[test]
fn app_handle_dataset() {
    let t = basic_app(false);
    assert_eq!(t.dataset_info_text(), "- URI: \"basic.gpkg\"");
    assert_eq!(t.layerlist().layer_infos().len(), 5);
    assert_eq!(t.layerlist().layer_index(), Some(0));
    assert_eq!(t.table().layers().len(), 5);
    assert_eq!(t.table().layers()[4].fid_cache().len(), 61);
}

#[test]
fn app_test_handle_mouse() {
    let mut t = basic_app(false);
    t.fit_layer_list(12);

    t.handle_mouse(TatMouseEventKind::ScrollDown);
    assert_eq!(t.layerlist().layer_index(), Some(3));
    t.handle_mouse(TatMouseEventKind::ScrollUp);
    assert_eq!(t.layerlist().layer_index(), Some(0));
    t.handle_mouse(TatMouseEventKind::ScrollDown);
    t.handle_mouse(TatMouseEventKind::ScrollDown);

    open_full_table(&mut t);

    assert_eq!(t.table().current_row(), 1);
    t.handle_mouse(TatMouseEventKind::ScrollDown);
    assert_eq!(t.table().current_row(), 6);
    t.handle_mouse(TatMouseEventKind::ScrollUp);
    assert_eq!(t.table().current_row(), 1);
    t.handle_mouse(TatMouseEventKind::Other);
    assert_eq!(t.table().current_row(), 1);
}

#[test]
fn app_test_show_full_value_popup() {
    let mut t = basic_app(false);
    t.show_full_value_popup();

    let popup = t.modal_popup().unwrap();
    assert_eq!(popup.text(), "NULL");
    assert_eq!(popup.title().unwrap(), " Feature 1 - Value of \"geom\" ");
}

#[test]
fn app_test_show_gdal_log() {
    let mut t = basic_app(false);
    t.show_gdal_log(vec!["output from gdal".to_string()]);
    let popup = t.modal_popup().unwrap();
    assert_eq!(popup.text(), "\noutput from gdal");
    assert_eq!(popup.title().unwrap(), " GDAL Log ");
}

#[test]
fn app_show_debug_log() {
    let mut t = basic_app(false);
    t.show_debug_log(Ok(vec!["one".to_string(), "two".to_string()]));
    assert_eq!(t.modal_popup().unwrap().text(), "\none\ntwo");
    t.show_debug_log(Err("No such file or directory".to_string()));
    assert_eq!(t.modal_popup().unwrap().text(), "Could not open file: No such file or directory");
    assert_eq!(t.modal_popup().unwrap().title().unwrap(), " Debug Log ");
}

#[test]
fn app_test_show_help() {
    let mut t = basic_app(false);
    t.show_help();

    assert!(t.modal_popup().unwrap().text().starts_with("Keybinds for Main Menu"));
    assert_eq!(t.modal_popup().unwrap().title().unwrap().as_str(), " Help ");

    open_full_table(&mut t);
    t.show_help();
    assert!(t.modal_popup().unwrap().text().starts_with("Keybinds for Attribute Table"));
}

#[test]
fn app_test_previous_menu() {
    let mut t = basic_app(false);

    t.show_help();
    assert!(t.modal_popup().is_some());
    t.previous_menu();
    assert!(t.modal_popup().is_none());

    open_full_table(&mut t);
    t.previous_menu();
    assert_eq!(t.current_menu(), TatMenu::MainMenu);
    assert!(!t.quit());

    t.previous_menu();
    assert!(t.quit());
}

#[test]
fn app_test_delegate_nav_v() {
    let mut t = basic_app(false);
    t.fit_layer_list(12);

    t.delegate_nav_v(TatNavVertical::DownParagraph);
    assert_eq!(t.layerlist().layer_index(), Some(4));

    open_full_table(&mut t);

    assert_eq!(t.table().current_row(), 1);
    t.delegate_nav_v(TatNavVertical::DownParagraph);
    assert_eq!(t.table().current_row(), 16);
}

#[test]
fn app_test_delegate_nav_h() {
    let mut t = basic_app(false);
    open_full_table(&mut t);

    assert_eq!(t.table().current_column_name(), Some("geom".to_string()));
    t.delegate_nav_h(TatNavHorizontal::RightOne);
    assert_eq!(t.table().current_column_name(), Some("field".to_string()));
}

#[test]
fn app_keys_quit_from_main_menu() {
    let mut t = basic_app(false);
    assert_eq!(t.handle_key(TatKeyCode::Char('q'), false), TatAppAction::Nothing);
    assert!(t.quit());
    let mut t = basic_app(false);
    t.handle_key(TatKeyCode::Char('q'), true);
    assert!(t.quit());
    let mut t = basic_app(false);
    t.handle_key(TatKeyCode::Char('c'), true);
    assert!(t.quit());
    let mut t = basic_app(false);
    open_full_table(&mut t);
    t.handle_key(TatKeyCode::Char('q'), true);
    assert!(t.quit());
    // CTRL+C quits in the table view too
    let mut t = basic_app(true);
    open_full_table(&mut t);
    assert_eq!(t.handle_key(TatKeyCode::Char('c'), true), TatAppAction::Nothing);
    assert!(t.quit());
}

#[test]
fn app_keys_open_table_and_jump_to_feature() {
    let mut t = basic_app(false);
    t.set_table_area(TatRect::new(0, 0, 250, 20));
    t.handle_key(TatKeyCode::Char('G'), false);
    assert_eq!(t.layerlist().layer_index(), Some(4));
    assert!(t.key_allowed(TatKeyCode::Enter, false));
    t.handle_key(TatKeyCode::Enter, false);
    assert_eq!(t.current_menu(), TatMenu::TableView);

    t.handle_key(TatKeyCode::Char(':'), false);
    assert!(t.number_input().is_some());
    t.handle_key(TatKeyCode::Char('5'), false);
    t.handle_key(TatKeyCode::Char('2'), false);
    assert_eq!(t.number_input().unwrap().string(), "52");
    assert!(t.key_allowed(TatKeyCode::Enter, false));
    t.handle_key(TatKeyCode::Enter, false);
    assert!(t.number_input().is_none());
    assert_eq!(t.table().current_row(), 52);

    t.handle_key(TatKeyCode::Char('g'), false);
    assert_eq!(t.table().current_row(), 1);
    t.handle_key(TatKeyCode::Char('$'), false);
    assert_eq!(t.table().current_column(), 8);
    t.handle_key(TatKeyCode::Home, false);
    assert_eq!(t.table().current_column(), 0);
}

#[test]
fn app_number_input_zero_closes_the_dialog() {
    let mut t = basic_app(false);
    t.set_table_area(TatRect::new(0, 0, 250, 20));
    t.handle_key(TatKeyCode::Enter, false);
    t.handle_key(TatKeyCode::Char(':'), false);
    t.handle_key(TatKeyCode::Char('1'), false);
    t.handle_key(TatKeyCode::Char('0'), false);
    t.handle_key(TatKeyCode::Home, false);
    t.handle_key(TatKeyCode::Delete, false);
    assert_eq!(t.number_input().unwrap().string(), "0");
    assert_eq!(t.number_input().unwrap().result_of(TatKeyCode::Enter), TatNumberInputResult::Close);
    assert!(t.key_allowed(TatKeyCode::Enter, false));
    t.handle_key(TatKeyCode::Enter, false);
    assert!(t.number_input().is_none());
    assert_eq!(t.table().current_row(), 1);
    assert_eq!(t.current_menu(), TatMenu::TableView);
}

#[test]
fn app_copy_without_clipboard_or_value_gives_feedback() {
    let mut t = basic_app(false);
    open_full_table(&mut t);
    assert_eq!(t.handle_key(TatKeyCode::Char('y'), false), TatAppAction::Nothing);
    assert_eq!(
        t.clipboard_feedback(),
        Some("ERROR! Could not copy to clipboard: clipboard context does not exist!")
    );
    t.handle_key(TatKeyCode::Char('x'), false);
    assert_eq!(t.clipboard_feedback(), None);

    let mut t = basic_app(true);
    open_full_table(&mut t);
    assert_eq!(t.handle_key(TatKeyCode::Char('y'), false), TatAppAction::Nothing);
    assert_eq!(t.clipboard_feedback(), Some("NULL value NOT copied to clipboard!"));
    // going back while feedback is shown only dismisses it
    t.handle_key(TatKeyCode::Esc, false);
    assert_eq!(t.clipboard_feedback(), None);
    assert_eq!(t.current_menu(), TatMenu::TableView);
}

#[test]
fn app_finish_copy_feedback() {
    let mut t = basic_app(true);
    t.finish_copy("POINT (0 0)", Ok(()));
    assert_eq!(t.clipboard_feedback(), Some("\"POINT (0 0)\" copied to clipboard!"));
    let long = "a".repeat(60);
    t.finish_copy(&long, Ok(()));
    assert_eq!(
        t.clipboard_feedback().unwrap(),
        format!("\"{}…\" copied to clipboard!", "a".repeat(50))
    );
    t.finish_copy("x", Err("no display".to_string()));
    assert_eq!(t.clipboard_feedback(), Some("ERROR! Could not copy to clipboard: no display"));
}

#[test]
fn app_log_keys_ask_for_logs_unless_popup_open() {
    let mut t = basic_app(false);
    assert_eq!(t.handle_key(TatKeyCode::Char('L'), false), TatAppAction::ShowGdalLog);
    assert_eq!(t.handle_key(TatKeyCode::Char('D'), false), TatAppAction::ShowDebugLog);
    t.handle_key(TatKeyCode::Char('?'), false);
    assert!(t.modal_popup().is_some());
    assert_eq!(t.handle_key(TatKeyCode::Char('L'), false), TatAppAction::Nothing);
}

#[test]
fn app_tab_cycles_sections_without_looping() {
    let mut t = basic_app(false);
    t.handle_key(TatKeyCode::BackTab, false);
    assert_eq!(t.focused_section(), TatLayerSelectFocusedBlock::LayerList);
    t.handle_key(TatKeyCode::Tab, false);
    assert_eq!(t.focused_section(), TatLayerSelectFocusedBlock::LayerInfo);
    t.handle_key(TatKeyCode::Tab, false);
    assert_eq!(t.focused_section(), TatLayerSelectFocusedBlock::PreviewTable);
    t.handle_key(TatKeyCode::Tab, false);
    assert_eq!(t.focused_section(), TatLayerSelectFocusedBlock::PreviewTable);
    t.handle_key(TatKeyCode::BackTab, false);
    assert_eq!(t.focused_section(), TatLayerSelectFocusedBlock::LayerInfo);
}

#[test]
fn app_preview_table_is_placed_and_navigated() {
    let mut t = basic_app(false);
    t.cycle_section_selection(false);
    t.cycle_section_selection(false);
    let area = TatRect::new(171, 6, 229, 20);
    assert!(t.place_preview_table(area));
    assert_eq!(t.table_area(), area);
    assert_eq!(t.table().rects().0, TatRect::new(182, 7, 218, 20));
    t.handle_key(TatKeyCode::Char('j'), false);
    assert_eq!(t.table().current_row(), 2);
    assert!(t.place_preview_table(TatRect::new(0, 0, 100, u16::MAX)));
    assert_eq!(t.table().rects().0, TatRect::new(11, 1, 89, u16::MAX));
}

#[test]
fn app_arrows_switch_between_layer_list_and_info() {
    let mut t = basic_app(false);
    t.handle_key(TatKeyCode::Right, false);
    assert_eq!(t.focused_section(), TatLayerSelectFocusedBlock::LayerInfo);
    t.handle_key(TatKeyCode::Left, false);
    assert_eq!(t.focused_section(), TatLayerSelectFocusedBlock::LayerList);
    t.handle_key(TatKeyCode::Left, false);
    assert_eq!(t.focused_section(), TatLayerSelectFocusedBlock::LayerList);
    // h and l still navigate the section in focus
    t.handle_key(TatKeyCode::Char('l'), false);
    assert_eq!(t.focused_section(), TatLayerSelectFocusedBlock::LayerList);
}

#[test]
fn app_shows_the_values_of_read_features() {
    let mut t = basic_app(true);
    open_full_table(&mut t);
    assert_eq!(t.table().missing_feature_ids(), vec![1, 2, 3]);
    t.handle_dataset(DatasetResponse::Feature(
        0,
        TatFeature::new(1, vec![Some("POINT (0 0)".to_string()), Some("7".to_string())]),
    ));
    assert_eq!(t.table().missing_feature_ids(), vec![2, 3]);
    assert_eq!(t.table().selected_value(), Some("POINT (0 0)".to_string()));
    assert_eq!(
        t.handle_key(TatKeyCode::Char('y'), false),
        TatAppAction::CopyToClipboard("POINT (0 0)".to_string())
    );
    t.handle_key(TatKeyCode::Enter, false);
    assert_eq!(t.modal_popup().unwrap().text(), "POINT (0 0)");
    assert_eq!(t.modal_popup().unwrap().title().unwrap(), " Feature 1 - Value of \"geom\" ");
}

#[test]
fn app_popup_scrolls_before_widgets() {
    let mut t = basic_app(false);
    t.show_gdal_log((1..=10).map(|i| format!("line {i}")).collect());
    t.set_popup_visible_area(3, 4);
    t.handle_key(TatKeyCode::Char('j'), false);
    t.handle_key(TatKeyCode::Char('l'), false);
    let popup = t.modal_popup().unwrap();
    assert_eq!(popup.scroll_offset_v(), 1);
    assert_eq!(popup.scroll_offset_h(), 1);
    assert_eq!(t.layerlist().layer_index(), Some(0));
}

#[test]
fn app_layer_info_section_scrolls_selected_info() {
    let mut t = basic_app(false);
    t.handle_dataset(DatasetResponse::LayerInfos(vec![(
        "only".to_string(),
        TatNavigableParagraph::new("1\n2\n3\n4".to_string()),
    )]));
    t.cycle_section_selection(false);
    t.set_layer_info_visible_area(2, 10);
    t.handle_key(TatKeyCode::Char('G'), false);
    assert_eq!(t.layerlist().current_layer_info_paragraph().unwrap().scroll_offset_v(), 2);
}
