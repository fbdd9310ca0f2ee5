use tat::layerlist::{TatLayerInfo, TatLayerList};
use tat::navparagraph::TatNavigableParagraph;
use tat::types::{TatNavHorizontal, TatNavVertical};

fn layer_infos() -> Vec<TatLayerInfo> {
    (1..=5)
        .map(|i| {
            (format!("Layer{i}"), TatNavigableParagraph::new(format!("Layer {i} info")))
        })
        .collect()
}

#[test]
fn layerlist_set_infos() {
    let mut ll = TatLayerList::new();
    ll.set_infos(layer_infos());

    assert_eq!(ll.layer_infos()[0].0, "Layer1");
    assert_eq!(ll.layer_infos()[1].0, "Layer2");
    assert_eq!(ll.layer_infos()[2].0, "Layer3");

    assert_eq!(ll.layer_infos()[0].1.text(), "Layer 1 info");
    assert_eq!(ll.layer_infos()[1].1.text(), "Layer 2 info");
    assert_eq!(ll.layer_infos()[2].1.text(), "Layer 3 info");
}

#[test]
fn layerlist_nav() {
    let mut ll = TatLayerList::new();
    ll.set_infos(layer_infos());
    ll.set_available_rows(2);

    assert_eq!(ll.layer_index(), Some(0));

    ll.nav(TatNavVertical::Last);
    assert_eq!(ll.layer_index(), Some(4));
    ll.nav(TatNavVertical::DownOne);
    assert_eq!(ll.layer_index(), Some(4));

    ll.nav(TatNavVertical::First);
    assert_eq!(ll.layer_index(), Some(0));
    ll.nav(TatNavVertical::UpOne);
    assert_eq!(ll.layer_index(), Some(0));
    ll.nav(TatNavVertical::DownOne);
    assert_eq!(ll.layer_index(), Some(1));
    ll.nav(TatNavVertical::DownHalfParagraph);
    assert_eq!(ll.layer_index(), Some(2));
    ll.nav(TatNavVertical::DownParagraph);
    assert_eq!(ll.layer_index(), Some(4));
    ll.nav(TatNavVertical::UpHalfParagraph);
    assert_eq!(ll.layer_index(), Some(3));
    ll.nav(TatNavVertical::UpParagraph);
    assert_eq!(ll.layer_index(), Some(1));
    ll.nav(TatNavVertical::UpParagraph);
    assert_eq!(ll.layer_index(), Some(0));

    ll.nav(TatNavVertical::Specific(2));
    assert_eq!(ll.layer_index(), Some(2));
}

#[test]
fn layerlist_without_layers_has_no_layer_index() {
    let mut ll = TatLayerList::new();
    assert_eq!(ll.layer_index(), None);
    assert!(ll.current_layer_info_paragraph().is_none());
    ll.nav(TatNavVertical::DownOne);
    assert_eq!(ll.selected(), Some(1));
    assert_eq!(ll.layer_index(), None);
}

#[test]
fn layerlist_selection_past_end_selects_last_layer() {
    let mut ll = TatLayerList::new();
    ll.set_infos(layer_infos());
    ll.nav(TatNavVertical::Specific(40));
    assert_eq!(ll.selected(), Some(40));
    assert_eq!(ll.layer_index(), Some(4));
    assert!(ll.current_layer_info_paragraph().is_none());
    assert_eq!(ll.scroll().position, 40);
}

#[test]
fn layerlist_scrolls_selected_info() {
    let mut ll = TatLayerList::new();
    ll.set_infos(vec![(
        "Layer".to_string(),
        TatNavigableParagraph::new("1\n2\n3\n4\n5\nlong line".to_string()),
    )]);
    ll.set_current_info_visible_area(2, 4);
    ll.nav_current_info_v(TatNavVertical::Last);
    ll.nav_current_info_h(TatNavHorizontal::End);
    let info = ll.current_layer_info_paragraph().unwrap();
    assert_eq!(info.scroll_offset_v(), 4);
    assert_eq!(info.scroll_offset_h(), 5);
}

#[test]
fn layerlist_fits_to_height_inside_borders() {
    let mut ll = TatLayerList::new();
    ll.set_infos(layer_infos());
    ll.fit_to_height(5);
    assert_eq!(ll.available_rows(), 3);
    assert!(ll.needs_scrollbar());
    ll.fit_to_height(1);
    assert_eq!(ll.available_rows(), 0);
    ll.fit_to_height(7);
    assert!(!ll.needs_scrollbar());
}
