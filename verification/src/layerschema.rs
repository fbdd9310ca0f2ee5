use vstd::prelude::*;

use crate::layer::{layer_counts_in_range, table_field_name};
use crate::types::{TatCrs, TatField, TatGeomField};

verus! {

/// What a layer schema holds
pub struct LayerSchemaState {
    pub name: Seq<char>,
    pub crs: Option<TatCrs>,
    pub geom_fields: Seq<TatGeomField>,
    pub attribute_fields: Seq<TatField>,
    pub index: usize,
    pub feature_count: u64,
}

impl LayerSchemaState {
    /// The schema's counts stay in the range GDAL gives them
    pub open spec fn wf(self) -> bool {
        layer_counts_in_range(self.geom_fields, self.attribute_fields, self.feature_count)
    }

    /// The number of columns in the layer's table: its geometry and attribute fields
    pub open spec fn field_count(self) -> nat {
        self.attribute_fields.len() + self.geom_fields.len()
    }

    /// The name of the field at a column of the layer's table
    pub open spec fn field_name(self, idx: int) -> Option<Seq<char>> {
        table_field_name(self.geom_fields, self.attribute_fields, idx)
    }
}

/// A struct which holds the description of a layer in a GDAL Dataset: its name, CRS, fields and
/// feature count.
#[derive(Debug)]
pub struct TatLayerSchema {
    name: String,
    crs: Option<TatCrs>,
    geom_fields: Vec<TatGeomField>,
    attribute_fields: Vec<TatField>,
    index: usize,
    feature_count: u64,
}

impl View for TatLayerSchema {
    type V = LayerSchemaState;

    closed spec fn view(&self) -> LayerSchemaState {
        LayerSchemaState {
            name: self.name@,
            crs: self.crs,
            geom_fields: self.geom_fields@,
            attribute_fields: self.attribute_fields@,
            index: self.index,
            feature_count: self.feature_count,
        }
    }
}

impl TatLayerSchema {
    /// Constructs new object
    pub fn new(
        name: String,
        crs: Option<TatCrs>,
        geom_fields: Vec<TatGeomField>,
        attribute_fields: Vec<TatField>,
        index: usize,
        feature_count: u64,
    ) -> (l: Self)
        requires
            layer_counts_in_range(geom_fields@, attribute_fields@, feature_count),
        ensures
            l@ == (LayerSchemaState {
                name: name@,
                crs,
                geom_fields: geom_fields@,
                attribute_fields: attribute_fields@,
                index,
                feature_count,
            }),
            l@.wf(),
    {
        Self { name, feature_count, crs, attribute_fields, geom_fields, index }
    }

    /// Returns the layer's name
    pub fn name(&self) -> (r: &str)
        ensures
            r@ == self@.name,
    {
        self.name.as_str()
    }

    /// Returns the total number of features in the layer
    pub fn feature_count(&self) -> (r: u64)
        ensures
            r == self@.feature_count,
    {
        self.feature_count
    }

    /// Returns the total number of attribute AND geometry fields in the layer. The reason this
    /// returns the sum of attribute and geometry fields is because both are displayed in the
    /// table.
    pub fn field_count(&self) -> (r: u64)
        requires
            self@.wf(),
        ensures
            r == self@.field_count(),
    {
        self.attribute_fields.len() as u64 + self.geom_fields.len() as u64
    }

    /// Returns the name of a field based on its index. This includes the geometry fields, which
    /// come first.
    pub fn field_name_by_id(&self, field_idx: i32) -> (r: Option<&str>)
        requires
            self@.wf(),
        ensures
            match r {
                Some(n) => self@.field_name(field_idx as int) == Some(n@),
                None => self@.field_name(field_idx as int) is None,
            },
    {
        let total_geom_fields: i32 = self.geom_fields.len() as i32;
        if field_idx < total_geom_fields {
            if field_idx < 0 {
                None
            } else {
                Some(self.geom_fields[field_idx as usize].name())
            }
        } else {
            let attribute_field_idx = (field_idx - total_geom_fields) as usize;
            if attribute_field_idx < self.attribute_fields.len() {
                Some(self.attribute_fields[attribute_field_idx].name())
            } else {
                None
            }
        }
    }

    /// Returns the layer's attribute fields
    pub fn attribute_fields(&self) -> (r: &[TatField])
        ensures
            r@ == self@.attribute_fields,
    {
        self.attribute_fields.as_slice()
    }

    /// Returns the layer's CRS (if any)
    pub fn crs(&self) -> (r: Option<&TatCrs>)
        ensures
            r == match self@.crs {
                Some(c) => Some(&c),
                None => None::<&TatCrs>,
            },
    {
        self.crs.as_ref()
    }

    /// Returns the layer's geometry fields
    pub fn geom_fields(&self) -> (r: &[TatGeomField])
        ensures
            r@ == self@.geom_fields,
    {
        self.geom_fields.as_slice()
    }

    /// Returns the layer's index in the dataset
    pub fn index(&self) -> (r: usize)
        ensures
            r == self@.index,
    {
        self.index
    }
}

} // verus!
