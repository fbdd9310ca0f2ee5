use tat::layer::{layer_counts_allowed, TatFeature, TatLayer, MAX_FEATURE_COUNT};
use tat::layerschema::TatLayerSchema;
use tat::types::{TatCrs, TatField, TatGeomField};

fn crs(code: i32) -> TatCrs {
    TatCrs::new("EPSG".to_string(), code, format!("EPSG:{code}"))
}

fn attribute_fields() -> Vec<TatField> {
    vec![
        TatField::new("Field1".to_string(), 0),
        TatField::new("Field2".to_string(), 1),
        TatField::new("Field3".to_string(), 2),
    ]
}

fn schema(geoms: Vec<TatGeomField>) -> TatLayerSchema {
    TatLayerSchema::new("Layer1".to_string(), Some(crs(4326)), geoms, attribute_fields(), 0, 100)
}

#[test]
fn layerschema_field_count() {
    let two = schema(vec![
        TatGeomField::new("geom1".to_string(), "Polygon".to_string(), Some(crs(3857))),
        TatGeomField::new("geom2".to_string(), "Point".to_string(), Some(crs(4326))),
    ]);
    let one = schema(vec![TatGeomField::new("geom".to_string(), "Polygon".to_string(), Some(crs(3857)))]);
    let none = schema(vec![]);
    assert_eq!(two.field_count(), 5);
    assert_eq!(one.field_count(), 4);
    assert_eq!(none.field_count(), 3);
}

#[test]
fn layerschema_field_name_by_id() {
    let two = schema(vec![
        TatGeomField::new("geom1".to_string(), "Polygon".to_string(), Some(crs(3857))),
        TatGeomField::new("geom2".to_string(), "Point".to_string(), Some(crs(4326))),
    ]);
    assert_eq!(two.field_name_by_id(0), Some("geom1"));
    assert_eq!(two.field_name_by_id(1), Some("geom2"));
    assert_eq!(two.field_name_by_id(2), Some("Field1"));
    assert_eq!(two.field_name_by_id(3), Some("Field2"));
    assert_eq!(two.field_name_by_id(4), Some("Field3"));
    assert_eq!(two.field_name_by_id(5), None);
    assert_eq!(two.field_name_by_id(-1), None);

    let none = schema(vec![]);
    assert_eq!(none.field_name_by_id(0), Some("Field1"));
    assert_eq!(none.field_name_by_id(2), Some("Field3"));
    assert_eq!(none.field_name_by_id(3), None);
}

#[test]
fn layer_field_names_and_values() {
    let layer = TatLayer::new(
        "Layer1".to_string(),
        Some(crs(4326)),
        vec![TatGeomField::new("geom".to_string(), "Point".to_string(), None)],
        attribute_fields(),
        2,
        4,
    );
    assert_eq!(layer.name(), "Layer1");
    assert_eq!(layer.index(), 2);
    assert_eq!(layer.feature_count(), 4);
    assert_eq!(layer.field_count(), 4);
    assert_eq!(layer.field_name_by_id(0), Some("geom".to_string()));
    assert_eq!(layer.field_name_by_id(3), Some("Field3".to_string()));
    assert_eq!(layer.field_name_by_id(4), None);
    // the layer holds no feature yet
    assert_eq!(layer.get_value_by_fid(1, 0), None);
    assert_eq!(layer.crs().unwrap().auth_code(), 4326);
}

fn polygon_layer() -> TatLayer {
    let mut l = TatLayer::new(
        "polygon".to_string(),
        None,
        vec![TatGeomField::new("geom".to_string(), "Polygon".to_string(), None)],
        vec![TatField::new("field".to_string(), 0)],
        2,
        3,
    );
    l.set_fid_cache(vec![1, 2, 4]);
    l.add_feature(TatFeature::new(
        1,
        vec![Some("POLYGON ((-9 3,-9 1,-7 1,-7 3,-9 3))".to_string()), Some("456".to_string())],
    ));
    l.add_feature(TatFeature::new(
        2,
        vec![Some("POLYGON ((-5 6,-5 3,-2 3,-2 6,-5 6))".to_string()), Some("213".to_string())],
    ));
    l
}

#[test]
fn test_get_value_by_fid() {
    let l = polygon_layer();
    assert_eq!(l.get_value_by_fid(0, 0), None);
    assert_eq!(l.get_value_by_fid(1, 2), None);
    assert_eq!(l.get_value_by_fid(3, 0), None);

    // feature 1
    assert_eq!(l.get_value_by_fid(1, 0), Some("POLYGON ((-9 3,-9 1,-7 1,-7 3,-9 3))".to_string()));
    assert_eq!(l.get_value_by_fid(1, 1), Some("456".to_string()));

    // feature 2
    assert_eq!(l.get_value_by_fid(2, 0), Some("POLYGON ((-5 6,-5 3,-2 3,-2 6,-5 6))".to_string()));
    assert_eq!(l.get_value_by_fid(2, 1), Some("213".to_string()));
}

#[test]
fn layer_values_by_row_follow_the_fid_cache() {
    let l = polygon_layer();
    assert_eq!(l.get_value_by_row(1, 1), Some("213".to_string()));
    assert_eq!(l.get_value_by_row(2, 0), None);
    assert_eq!(l.get_value_by_fid(1, -1), None);
    assert!(l.has_feature(2));
    assert!(!l.has_feature(4));
}

#[test]
fn layer_reads_back_the_feature_added_last() {
    let mut l = polygon_layer();
    l.add_feature(TatFeature::new(1, vec![None, Some("789".to_string())]));
    assert_eq!(l.get_value_by_fid(1, 0), None);
    assert_eq!(l.get_value_by_fid(1, 1), Some("789".to_string()));
    assert_eq!(l.get_value_by_fid(2, 1), Some("213".to_string()));
}

#[test]
fn crs_from_spatial_ref_needs_all_parts() {
    let full = TatCrs::from_spatial_ref(Some("EPSG".to_string()), Some(3067), Some("ETRS89 / TM35FIN(E,N)".to_string()));
    let full = full.unwrap();
    assert_eq!(full.auth_name(), "EPSG");
    assert_eq!(full.auth_code(), 3067);
    assert_eq!(full.name(), "ETRS89 / TM35FIN(E,N)");
    assert!(TatCrs::from_spatial_ref(None, Some(3067), Some("x".to_string())).is_none());
    assert!(TatCrs::from_spatial_ref(Some("EPSG".to_string()), None, Some("x".to_string())).is_none());
    assert!(TatCrs::from_spatial_ref(Some("EPSG".to_string()), Some(1), None).is_none());
}

#[test]
fn geometry_field_without_name_is_called_geometry() {
    let fields = TatLayer::geom_fields_from_layer(vec![
        (String::new(), "Point".to_string(), None),
        ("shape".to_string(), "Polygon".to_string(), Some(crs(3857))),
    ]);
    assert_eq!(fields[0].name(), "geometry");
    assert_eq!(fields[0].geom_type(), "Point");
    assert_eq!(fields[1].name(), "shape");
    assert_eq!(fields[1].crs().unwrap().auth_code(), 3857);
    let attrs = TatLayer::fields_from_layer(vec![("a".to_string(), 0), ("b".to_string(), 4)]);
    assert_eq!(attrs[1].name(), "b");
    assert_eq!(attrs[1].dtype(), 4);
}

#[test]
fn layer_gives_no_value_past_its_columns() {
    let mut l = polygon_layer();
    l.add_feature(TatFeature::new(
        4,
        vec![Some("POINT (1 2)".to_string()), Some("1".to_string()), Some("extra".to_string())],
    ));
    assert_eq!(l.get_value_by_fid(4, 1), Some("1".to_string()));
    assert_eq!(l.get_value_by_fid(4, 2), None);
}

#[test]
fn layer_counts_have_a_largest_feature_count() {
    let geoms = vec![TatGeomField::new("geom".to_string(), "Point".to_string(), None)];
    let fields = vec![TatField::new("field".to_string(), 0)];
    assert!(layer_counts_allowed(&geoms, &fields, MAX_FEATURE_COUNT));
    assert!(!layer_counts_allowed(&geoms, &fields, MAX_FEATURE_COUNT + 1));
    assert_eq!(MAX_FEATURE_COUNT, i64::MAX as u64 - 65536);
}
