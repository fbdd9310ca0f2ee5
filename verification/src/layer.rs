use vstd::prelude::*;

use crate::types::{TatCrs, TatField, TatGeomField};

verus! {

/// The name of the field at a position of a layer's table, where the geometry fields come first
/// and the attribute fields after them
pub open spec fn table_field_name(
    geom_fields: Seq<TatGeomField>,
    attribute_fields: Seq<TatField>,
    idx: int,
) -> Option<Seq<char>> {
    let g = geom_fields.len() as int;
    if 0 <= idx < g {
        Some(geom_fields[idx].spec_name())
    } else if g <= idx < g + attribute_fields.len() {
        Some(attribute_fields[idx - g].spec_name())
    } else {
        None
    }
}

/// The largest feature count a layer takes. GDAL counts features in an `i64`, and the table works
/// out its rows in that same arithmetic: a jump takes a feature number as an `i64`, and the top
/// row, the largest top row and the rows below it are computed with up to a screen's worth of
/// rows (at most `u16::MAX`, the largest terminal height) added to a feature number. Keeping
/// 65536 rows of room below `i64::MAX` makes all of these fit, which is the bound's only
/// reason; GDAL reports no larger counts than `i64::MAX`.
pub const MAX_FEATURE_COUNT: u64 = 0x7fff_ffff_fffe_ffff;

/// The counts that GDAL keeps in signed integers stay in their range
pub open spec fn layer_counts_in_range(
    geom_fields: Seq<TatGeomField>,
    attribute_fields: Seq<TatField>,
    feature_count: u64,
) -> bool {
    &&& geom_fields.len() + attribute_fields.len() <= i32::MAX
    &&& feature_count <= MAX_FEATURE_COUNT
}

/// Returns whether a layer with these fields and this many features can be shown: the counts
/// stay in the range that `TatLayer::new` and the table's arithmetic take
pub fn layer_counts_allowed(
    geom_fields: &[TatGeomField],
    attribute_fields: &[TatField],
    feature_count: u64,
) -> (b: bool)
    ensures
        b == layer_counts_in_range(geom_fields@, attribute_fields@, feature_count),
{
    (geom_fields.len() as u128 + attribute_fields.len() as u128) <= i32::MAX as u128 && feature_count
        <= MAX_FEATURE_COUNT
}

/// What a feature holds for the table: its id and the text of each of its values, in the order
/// of the table's columns
pub struct FeatureState {
    pub fid: u64,
    pub values: Seq<Option<Seq<char>>>,
}

/// The text of each value, where there is one
pub open spec fn value_texts(values: Seq<Option<String>>) -> Seq<Option<Seq<char>>> {
    values.map_values(
        |v: Option<String>|
            match v {
                Some(t) => Some(t@),
                None => None,
            },
    )
}

/// A feature of a layer as the table shows it: its id and the text of each of its values, in the
/// order of the table's columns (the geometries first, as WKT, then the attributes). A value that
/// is null, or could not be read, has no text.
pub struct TatFeature {
    pub fid: u64,
    pub values: Vec<Option<String>>,
}

impl View for TatFeature {
    type V = FeatureState;

    open spec fn view(&self) -> FeatureState {
        FeatureState { fid: self.fid, values: value_texts(self.values@) }
    }
}

impl TatFeature {
    /// Constructs a feature from its id and its values in the order of the table's columns
    pub fn new(fid: u64, values: Vec<Option<String>>) -> (f: Self)
        ensures
            f.fid == fid,
            f.values == values,
    {
        TatFeature { fid, values }
    }
}

/// The values of the feature with the id `fid` that was added last, if any was
pub open spec fn feature_values(features: Seq<FeatureState>, fid: u64) -> Option<
    Seq<Option<Seq<char>>>,
>
    decreases features.len(),
{
    if features.len() == 0 {
        None
    } else if features.last().fid == fid {
        Some(features.last().values)
    } else {
        feature_values(features.drop_last(), fid)
    }
}

/// What a layer holds
pub struct LayerState {
    pub name: Seq<char>,
    pub crs: Option<TatCrs>,
    pub geom_fields: Seq<TatGeomField>,
    pub attribute_fields: Seq<TatField>,
    pub index: usize,
    pub fid_cache: Seq<u64>,
    pub feature_count: u64,
    pub features: Seq<FeatureState>,
}

impl LayerState {
    /// The value at column `field_idx` of the feature with the id `fid` (that of the feature
    /// added last with that id), if the layer holds that feature, the column is one of the
    /// layer's columns and the feature has a value there
    pub open spec fn value_by_fid(self, fid: u64, field_idx: int) -> Option<Seq<char>> {
        match feature_values(self.features, fid) {
            None => None,
            Some(values) => if 0 <= field_idx < values.len() && field_idx < self.field_count() {
                values[field_idx]
            } else {
                None
            },
        }
    }

    /// The value at column `field_idx` of the feature at position `row` of the fid cache
    pub open spec fn value_by_row(self, row: int, field_idx: int) -> Option<Seq<char>> {
        self.value_by_fid(self.fid_cache[row], field_idx)
    }

    /// The layer after a feature was added to it
    pub open spec fn add_feature_result(self, f: FeatureState) -> LayerState {
        LayerState { features: self.features.push(f), ..self }
    }

    /// The layer's counts stay in the range GDAL gives them
    pub open spec fn wf(self) -> bool {
        layer_counts_in_range(self.geom_fields, self.attribute_fields, self.feature_count)
    }

    /// The number of columns in the layer's table: its geometry and attribute fields
    pub open spec fn field_count(self) -> nat {
        self.attribute_fields.len() + self.geom_fields.len()
    }

    /// The name of the field at a column of the layer's table
    pub open spec fn field_name(self, idx: int) -> Option<Seq<char>> {
        table_field_name(self.geom_fields, self.attribute_fields, idx)
    }
}

/// A struct which holds information about a layer in a GDAL Dataset and can also fetch information
/// about features in the layer.
pub struct TatLayer {
    name: String,
    crs: Option<TatCrs>,
    geom_fields: Vec<TatGeomField>,
    attribute_fields: Vec<TatField>,
    index: usize,
    /// A cache of feature ids in the underlying GDAL layer. This is needed because the
    /// features are listed and numbered sequentially in the table for clarity and navigation
    /// reasons but the GDAL fids are not always sequential so in order to access the features in
    /// the layer from a sequential index we need to save its corresponding fid.
    fid_cache: Vec<u64>,
    feature_count: u64,
    /// The features read so far, in the order they were added
    features: Vec<TatFeature>,
}

impl View for TatLayer {
    type V = LayerState;

    closed spec fn view(&self) -> LayerState {
        LayerState {
            name: self.name@,
            crs: self.crs,
            geom_fields: self.geom_fields@,
            attribute_fields: self.attribute_fields@,
            index: self.index,
            fid_cache: self.fid_cache@,
            feature_count: self.feature_count,
            features: self.features@.map_values(|f: TatFeature| f@),
        }
    }
}

impl TatLayer {
    /// A layer's counts always stay in the range GDAL gives them
    #[verifier::type_invariant]
    pub open spec fn well_formed(self) -> bool {
        self@.wf()
    }

    /// Constructs new object
    pub fn new(
        name: String,
        crs: Option<TatCrs>,
        geom_fields: Vec<TatGeomField>,
        attribute_fields: Vec<TatField>,
        index: usize,
        feature_count: u64,
    ) -> (l: Self)
        requires
            layer_counts_in_range(geom_fields@, attribute_fields@, feature_count),
        ensures
            l@ == (LayerState {
                name: name@,
                crs,
                geom_fields: geom_fields@,
                attribute_fields: attribute_fields@,
                index,
                fid_cache: Seq::empty(),
                feature_count,
                features: Seq::empty(),
            }),
            l@.wf(),
    {
        let features: Vec<TatFeature> = Vec::new();
        proof {
            assert(features@.map_values(|f: TatFeature| f@) =~= Seq::<FeatureState>::empty());
        }
        Self {
            name,
            feature_count,
            crs,
            attribute_fields,
            geom_fields,
            index,
            fid_cache: Vec::new(),
            features,
        }
    }

    /// Returns the layer's name
    pub fn name(&self) -> (r: &str)
        ensures
            r@ == self@.name,
    {
        self.name.as_str()
    }

    /// Returns the total number of features in the layer
    pub fn feature_count(&self) -> (r: u64)
        ensures
            r == self@.feature_count,
    {
        self.feature_count
    }

    /// Returns the layer's index in the dataset
    pub fn index(&self) -> (r: usize)
        ensures
            r == self@.index,
    {
        self.index
    }

    /// Turns the geometry fields GDAL reports for a layer (name, geometry type name and CRS) into
    /// the layer's geometry fields. A field without a name is called "geometry".
    pub fn geom_fields_from_layer(fields: Vec<(String, String, Option<TatCrs>)>) -> (r: Vec<
        TatGeomField,
    >)
        ensures
            r@.len() == fields@.len(),
            forall|i: int|
                0 <= i < fields@.len() ==> {
                    &&& (#[trigger] r@[i]).spec_name() == (if fields@[i].0@.len() == 0 {
                        "geometry"@
                    } else {
                        fields@[i].0@
                    })
                    &&& r@[i].spec_geom_type() == fields@[i].1@
                    &&& r@[i].spec_crs() == fields@[i].2
                },
    {
        let mut out: Vec<TatGeomField> = Vec::new();
        let mut rest = fields;
        let ghost all = rest@;
        let total = rest.len();
        let mut i: usize = 0;
        while rest.len() > 0
            invariant
                i + rest@.len() == all.len(),
                all.len() == total,
                rest@ == all.skip(i as int),
                out@.len() == i,
                forall|j: int|
                    0 <= j < i ==> {
                        &&& (#[trigger] out@[j]).spec_name() == (if all[j].0@.len() == 0 {
                            "geometry"@
                        } else {
                            all[j].0@
                        })
                        &&& out@[j].spec_geom_type() == all[j].1@
                        &&& out@[j].spec_crs() == all[j].2
                    },
            decreases rest@.len(),
        {
            let (name, geom_type, crs) = rest.remove(0);
            proof {
                assert(all[i as int] == (name, geom_type, crs));
                assert(rest@ =~= all.skip(i + 1));
            }
            let field_name = if name.as_str().is_empty() {
                "geometry".to_owned()
            } else {
                name
            };
            out.push(TatGeomField::new(field_name, geom_type, crs));
            i = i + 1;
        }
        out
    }

    /// Turns the attribute fields GDAL reports for a layer (name and field type) into the layer's
    /// attribute fields
    pub fn fields_from_layer(fields: Vec<(String, u32)>) -> (r: Vec<TatField>)
        ensures
            r@.len() == fields@.len(),
            forall|i: int|
                0 <= i < fields@.len() ==> {
                    &&& (#[trigger] r@[i]).spec_name() == fields@[i].0@
                    &&& r@[i].spec_dtype() == fields@[i].1
                },
    {
        let mut out: Vec<TatField> = Vec::new();
        let mut rest = fields;
        let ghost all = rest@;
        let total = rest.len();
        let mut i: usize = 0;
        while rest.len() > 0
            invariant
                i + rest@.len() == all.len(),
                all.len() == total,
                rest@ == all.skip(i as int),
                out@.len() == i,
                forall|j: int|
                    0 <= j < i ==> {
                        &&& (#[trigger] out@[j]).spec_name() == all[j].0@
                        &&& out@[j].spec_dtype() == all[j].1
                    },
            decreases rest@.len(),
        {
            let (name, dtype) = rest.remove(0);
            proof {
                assert(all[i as int] == (name, dtype));
                assert(rest@ =~= all.skip(i + 1));
            }
            out.push(TatField::new(name, dtype));
            i = i + 1;
        }
        out
    }

    /// Returns the total number of attribute AND geometry fields in the layer. The reason this
    /// returns the sum of attribute and geometry fields is because both are displayed in the
    /// table.
    pub fn field_count(&self) -> (r: u64)
        requires
            self@.wf(),
        ensures
            r == self@.field_count(),
    {
        self.attribute_fields.len() as u64 + self.geom_fields.len() as u64
    }

    /// Returns the name of a field based on its index. This includes the geometry fields, which
    /// come first.
    pub fn field_name_by_id(&self, field_idx: i32) -> (r: Option<String>)
        requires
            self@.wf(),
        ensures
            match r {
                Some(n) => self@.field_name(field_idx as int) == Some(n@),
                None => self@.field_name(field_idx as int) is None,
            },
    {
        let total_geom_fields: i32 = self.geom_fields.len() as i32;
        if field_idx < total_geom_fields {
            if field_idx < 0 {
                None
            } else {
                Some(self.geom_fields[field_idx as usize].name().to_owned())
            }
        } else {
            let attribute_field_idx = (field_idx - total_geom_fields) as usize;
            if attribute_field_idx < self.attribute_fields.len() {
                Some(self.attribute_fields[attribute_field_idx].name().to_owned())
            } else {
                None
            }
        }
    }

    /// Returns a value of a specific row (if any), the row (as a `usize`) being a position in the
    /// fid cache
    pub fn get_value_by_row(&self, row: u64, field_idx: i32) -> (r: Option<String>)
        requires
            (row as usize) < self@.fid_cache.len(),
        ensures
            match r {
                Some(v) => self@.value_by_row((row as usize) as int, field_idx as int) == Some(v@),
                None => self@.value_by_row((row as usize) as int, field_idx as int) is None,
            },
    {
        let fid = self.fid_cache[row as usize];
        self.get_value_by_fid(fid, field_idx)
    }

    /// Returns a value from a specific feature and field. This also includes geometry fields if
    /// any exist. The given field index matches how the fields are displayed in the table i.e.
    /// geometry columns are always displayed first, attribute fields second. There is no value
    /// when the layer does not hold the feature, when the index is outside its values, and when
    /// the value is null.
    pub fn get_value_by_fid(&self, fid: u64, field_idx: i32) -> (r: Option<String>)
        ensures
            match r {
                Some(v) => self@.value_by_fid(fid, field_idx as int) == Some(v@),
                None => self@.value_by_fid(fid, field_idx as int) is None,
            },
    {
        proof {
            use_type_invariant(self);
        }
        let columns = self.field_count();
        let ghost all = self@.features;
        let mut i: usize = self.features.len();
        proof {
            assert(all.take(i as int) =~= all);
        }
        while i > 0
            invariant
                columns == self@.field_count(),
                i <= self.features@.len(),
                all == self.features@.map_values(|f: TatFeature| f@),
                feature_values(all, fid) == feature_values(all.take(i as int), fid),
            decreases i,
        {
            let f = &self.features[i - 1];
            proof {
                assert(all.take(i as int).drop_last() =~= all.take(i - 1));
                assert(all.take(i as int).last() == f@);
            }
            if f.fid == fid {
                if field_idx < 0 || field_idx as usize >= f.values.len() || field_idx as u64
                    >= columns {
                    return None;
                }
                return match &f.values[field_idx as usize] {
                    Some(text) => Some(text.clone()),
                    None => None,
                };
            }
            i = i - 1;
        }
        proof {
            assert(all.take(0) =~= Seq::<FeatureState>::empty());
        }
        None
    }

    /// Returns whether the layer holds the values of the feature with the id `fid`
    pub fn has_feature(&self, fid: u64) -> (b: bool)
        ensures
            b == feature_values(self@.features, fid) is Some,
    {
        let ghost all = self@.features;
        let mut i: usize = self.features.len();
        proof {
            assert(all.take(i as int) =~= all);
        }
        while i > 0
            invariant
                i <= self.features@.len(),
                all == self.features@.map_values(|f: TatFeature| f@),
                feature_values(all, fid) == feature_values(all.take(i as int), fid),
            decreases i,
        {
            proof {
                assert(all.take(i as int).drop_last() =~= all.take(i - 1));
                assert(all.take(i as int).last() == self.features@[i - 1]@);
            }
            if self.features[i - 1].fid == fid {
                return true;
            }
            i = i - 1;
        }
        proof {
            assert(all.take(0) =~= Seq::<FeatureState>::empty());
        }
        false
    }

    /// Adds a feature whose values were read, so that they can be shown
    pub fn add_feature(&mut self, f: TatFeature)
        ensures
            final(self)@ == old(self)@.add_feature_result(f@),
    {
        proof {
            use_type_invariant(&*self);
        }
        let ghost before = self.features@;
        let mut features: Vec<TatFeature> = Vec::new();
        std::mem::swap(&mut features, &mut self.features);
        features.push(f);
        proof {
            assert(features@.map_values(|g: TatFeature| g@) =~= before.map_values(
                |g: TatFeature| g@,
            ).push(f@));
        }
        self.features = features;
    }

    /// Returns the layer's attribute fields
    pub fn attribute_fields(&self) -> (r: &[TatField])
        ensures
            r@ == self@.attribute_fields,
    {
        self.attribute_fields.as_slice()
    }

    /// Returns the fid cache
    pub fn fid_cache(&self) -> (r: &[u64])
        ensures
            r@ == self@.fid_cache,
    {
        self.fid_cache.as_slice()
    }

    /// Returns the layer's CRS (if any)
    pub fn crs(&self) -> (r: Option<&TatCrs>)
        ensures
            r == match self@.crs {
                Some(c) => Some(&c),
                None => None::<&TatCrs>,
            },
    {
        self.crs.as_ref()
    }

    /// Returns the layer's geometry fields
    pub fn geom_fields(&self) -> (r: &[TatGeomField])
        ensures
            r@ == self@.geom_fields,
    {
        self.geom_fields.as_slice()
    }

    /// Replaces the fid cache
    pub fn set_fid_cache(&mut self, fid_cache: Vec<u64>)
        ensures
            final(self)@ == (LayerState { fid_cache: fid_cache@, ..old(self)@ }),
    {
        proof {
            use_type_invariant(&*self);
        }
        self.fid_cache = fid_cache;
    }
}

/// A layer reads back what it was given: after a feature is added, each of its values is given
/// by its id at its column (and nothing past its values or the layer's columns), and the values of every other feature
/// id stay as they were.
pub proof fn law_added_feature_is_read_back(l: LayerState, f: FeatureState, fid: u64, idx: int)
    ensures
        l.add_feature_result(f).value_by_fid(f.fid, idx) == (if 0 <= idx < f.values.len() && idx
            < l.field_count() {
            f.values[idx]
        } else {
            None
        }),
        fid != f.fid ==> l.add_feature_result(f).value_by_fid(fid, idx) == l.value_by_fid(fid, idx),
{
    assert(l.features.push(f).drop_last() =~= l.features);
}

} // verus!
