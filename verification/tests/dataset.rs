use tat::dataset::{
    allowed_drivers, dataset_info_text, layer_info, layer_info_text, layer_selected,
    open_error_message, parse_layer_filter, TatOpenError,
};
use tat::layerschema::TatLayerSchema;
use tat::types::{TatCrs, TatField, TatGeomField};

fn schema() -> TatLayerSchema {
    TatLayerSchema::new(
        "roads".to_string(),
        Some(TatCrs::new("EPSG".to_string(), 3067, "ETRS89 / TM35FIN(E,N)".to_string())),
        vec![
            TatGeomField::new(
                "geom".to_string(),
                "Line String".to_string(),
                Some(TatCrs::new("EPSG".to_string(), 3067, "ETRS89".to_string())),
            ),
            TatGeomField::new("centroid".to_string(), "Point".to_string(), None),
        ],
        vec![TatField::new("name".to_string(), 4), TatField::new("lanes".to_string(), 0)],
        0,
        1234,
    )
}

#[test]
fn layer_info_text_describes_layer() {
    let text = layer_info_text(&schema(), &vec!["String".to_string(), "Integer".to_string()]);
    let expected = "- Name: roads
- CRS: EPSG:3067 (ETRS89 / TM35FIN(E,N))
- Feature Count: 1234
- Geometry fields:
    \"geom\" - (Line String, EPSG:3067)
    \"centroid\" - (Point)
- Fields (2):
    \"name\" - (String)
    \"lanes\" - (Integer)
";
    assert_eq!(text, expected);
}

#[test]
fn layer_info_text_of_bare_layer() {
    let bare = TatLayerSchema::new("t".to_string(), None, vec![], vec![], 3, 0);
    assert_eq!(layer_info_text(&bare, &vec![]), "- Name: t\n- Feature Count: 0\n");
    let negative = TatLayerSchema::new(
        "n".to_string(),
        Some(TatCrs::new("X".to_string(), -5, "odd".to_string())),
        vec![],
        vec![],
        0,
        7,
    );
    assert_eq!(layer_info_text(&negative, &vec![]), "- Name: n\n- CRS: X:-5 (odd)\n- Feature Count: 7\n");
}

#[test]
fn layer_info_pairs_name_and_description() {
    let (name, para) = layer_info(&schema(), &vec!["String".to_string(), "Integer".to_string()]);
    assert_eq!(name, "roads");
    assert!(para.text().starts_with("- Name: roads\n"));
    assert_eq!(para.total_lines(), 9);
    assert_eq!(para.title(), None);
}

#[test]
fn dataset_info_text_names_uri_and_driver() {
    assert_eq!(
        dataset_info_text(Some("./testdata/basic.gpkg".to_string()), "GeoPackage", "GPKG"),
        "- URI: \"./testdata/basic.gpkg\"\n- Driver: GeoPackage (GPKG)"
    );
    assert_eq!(
        dataset_info_text(None, "ESRI Shapefile", "ESRI Shapefile"),
        "- URI: \"ERROR: COULD NOT READ DATASET DESCRIPTION!\"\n- Driver: ESRI Shapefile (ESRI Shapefile)"
    );
}

#[test]
fn open_error_messages() {
    assert_eq!(
        open_error_message(&TatOpenError::NullPointer(String::new())),
        "ERROR! Could not open dataset."
    );
    assert_eq!(
        open_error_message(&TatOpenError::NullPointer("no such file".to_string())),
        "ERROR! Could not open dataset. GDAL message:\nno such file"
    );
    assert_eq!(
        open_error_message(&TatOpenError::Other("driver refused".to_string())),
        "ERROR! Could not open dataset:\ndriver refused"
    );
}

#[test]
fn long_open_error_message_is_cut() {
    let exactly = "x".repeat(100);
    assert_eq!(
        open_error_message(&TatOpenError::NullPointer(exactly.clone())),
        format!("ERROR! Could not open dataset. GDAL message:\n{exactly}")
    );
    let long = "y".repeat(150);
    assert_eq!(
        open_error_message(&TatOpenError::NullPointer(long)),
        format!("ERROR! Could not open dataset. GDAL message:\n{}…", "y".repeat(100))
    );
    // 60 two-byte characters: 120 bytes, cut to 100 grapheme clusters (all of them)
    let wide = "ä".repeat(60);
    assert_eq!(
        open_error_message(&TatOpenError::NullPointer(wide.clone())),
        format!("ERROR! Could not open dataset. GDAL message:\n{wide}…")
    );
}

#[test]
fn layer_filter_keeps_listed_layers() {
    let filter = Some(vec!["nogeom".to_string(), "point".to_string()]);
    assert!(layer_selected(&filter, "nogeom"));
    assert!(layer_selected(&filter, "point"));
    assert!(!layer_selected(&filter, "line"));
    assert!(layer_selected(&None, "line"));
    assert!(!layer_selected(&Some(vec![]), "line"));
}

#[test]
fn layer_filter_parses_comma_separated_names() {
    assert_eq!(parse_layer_filter(None), None);
    assert_eq!(
        parse_layer_filter(Some("layer_1,layer_2".to_string())),
        Some(vec!["layer_1".to_string(), "layer_2".to_string()])
    );
    assert_eq!(parse_layer_filter(Some("layer_1".to_string())), Some(vec!["layer_1".to_string()]));
    assert_eq!(parse_layer_filter(Some(String::new())), Some(vec![String::new()]));
    assert_eq!(
        parse_layer_filter(Some("a,,b,".to_string())),
        Some(vec!["a".to_string(), String::new(), "b".to_string(), String::new()])
    );
}

#[test]
fn tested_drivers_unless_all_allowed() {
    assert_eq!(allowed_drivers(true), None);
    let drivers = allowed_drivers(false).unwrap();
    assert_eq!(drivers.len(), 13);
    assert_eq!(drivers[0], "CSV");
    assert_eq!(drivers[5], "GPKG");
    assert_eq!(drivers[12], "XLSX");
}
