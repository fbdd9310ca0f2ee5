use vstd::prelude::*;
use vstd::string::*;

use crate::layer::{TatFeature, TatLayer};
use crate::layerlist::TatLayerInfo;
use crate::layerschema::{LayerSchemaState, TatLayerSchema};
use crate::navparagraph::TatNavigableParagraph;
use crate::text::{
    decimal_digits, first_graphemes, i64_to_decimal, signed_decimal, string_push, take_graphemes,
    u64_to_decimal, utf8_byte_len,
};
use crate::types::{TatCrs, TatField, TatGeomField};

verus! {

broadcast use vstd::string::group_string_axioms;

/// Requests which the program sends to the thread reading the dataset
#[derive(Debug)]
pub enum DatasetRequest {
    /// The names and descriptions of all opened layers
    AllLayerInfos,
    /// Opens the layers of the dataset
    BuildLayers,
    /// The features between a top and a bottom row
    Features(u64, u64),
    /// The values of the feature with an id, in the layer at a position of the table's layers
    Feature(usize, u64),
    /// The description of the dataset itself
    DatasetInfo,
}

/// Responses which the thread reading the dataset sends back
pub enum DatasetResponse {
    /// The names and descriptions of the opened layers
    LayerInfos(Vec<TatLayerInfo>),
    /// Values of features
    Features(Vec<String>),
    /// The description of the dataset
    DatasetInfo(String),
    /// One opened layer, for the attribute table
    Layer(TatLayer),
    /// The feature ids of the layer at an index
    FidCache(usize, Vec<u64>),
    /// The values of a feature of the layer at an index
    Feature(usize, TatFeature),
    /// The dataset could not be opened
    InvalidDataset,
    /// The dataset was opened
    DatasetCreated,
}

/// Why a dataset could not be opened
pub enum TatOpenError {
    /// GDAL returned no dataset, with the message it left behind (which may be empty)
    NullPointer(String),
    /// Any other error, as its description reads
    Other(String),
}

/// At most this many characters of GDAL's message are shown when a dataset cannot be opened
pub const MAX_OPEN_ERROR_LENGTH: usize = 100;

/// The message shown when a dataset cannot be opened. A message of GDAL that is longer than
/// [`MAX_OPEN_ERROR_LENGTH`] bytes or characters is cut to that many grapheme clusters and ends
/// with an ellipsis.
pub open spec fn open_error_text(err: TatOpenError) -> Seq<char> {
    match err {
        TatOpenError::NullPointer(msg) => if msg@.len() == 0 {
            "ERROR! Could not open dataset."@
        } else if utf8_byte_len(msg@) > MAX_OPEN_ERROR_LENGTH || msg@.len() > MAX_OPEN_ERROR_LENGTH {
            "ERROR! Could not open dataset. GDAL message:\n"@ + first_graphemes(
                msg@,
                MAX_OPEN_ERROR_LENGTH as nat,
            ) + "…"@
        } else {
            "ERROR! Could not open dataset. GDAL message:\n"@ + msg@
        },
        TatOpenError::Other(text) => "ERROR! Could not open dataset:\n"@ + text@,
    }
}

/// Returns the message that tells why a dataset could not be opened
pub fn open_error_message(err: &TatOpenError) -> (r: String)
    ensures
        r@ == open_error_text(*err),
{
    match err {
        TatOpenError::NullPointer(msg) => {
            if msg.as_str().is_empty() {
                return String::from_str("ERROR! Could not open dataset.");
            }
            let squish: bool = if msg.as_str().len() > MAX_OPEN_ERROR_LENGTH {
                true
            } else if msg.as_str().unicode_len() > MAX_OPEN_ERROR_LENGTH {
                true
            } else {
                false
            };
            let mut text = String::from_str("ERROR! Could not open dataset. GDAL message:\n");
            if squish {
                let squished = take_graphemes(msg.as_str(), MAX_OPEN_ERROR_LENGTH);
                text.append(squished.as_str());
                text.append("…");
            } else {
                text.append(msg.as_str());
            }
            text
        },
        TatOpenError::Other(description) => {
            let mut text = String::from_str("ERROR! Could not open dataset:\n");
            text.append(description.as_str());
            text
        },
    }
}

/// The description of a dataset: where it was opened from and the driver that reads it
pub open spec fn dataset_info_spec(
    description: Option<Seq<char>>,
    driver_long_name: Seq<char>,
    driver_short_name: Seq<char>,
) -> Seq<char> {
    let uri = match description {
        Some(d) => d,
        None => "ERROR: COULD NOT READ DATASET DESCRIPTION!"@,
    };
    "- URI: \""@ + uri + "\"\n- Driver: "@ + driver_long_name + " ("@ + driver_short_name + ")"@
}

/// Returns the description of a dataset from its description (the URI it was opened from, when
/// it could be read) and its driver's long and short name
pub fn dataset_info_text(
    description: Option<String>,
    driver_long_name: &str,
    driver_short_name: &str,
) -> (r: String)
    ensures
        r@ == dataset_info_spec(
            match description {
                Some(d) => Some(d@),
                None => None,
            },
            driver_long_name@,
            driver_short_name@,
        ),
{
    let mut text = String::from_str("- URI: \"");
    match &description {
        Some(d) => text.append(d.as_str()),
        None => text.append("ERROR: COULD NOT READ DATASET DESCRIPTION!"),
    }
    text.append("\"\n- Driver: ");
    text.append(driver_long_name);
    text.append(" (");
    text.append(driver_short_name);
    text.append(")");
    text
}

/// Whether a layer is opened: every layer when no layers were asked for, else the layers whose
/// names were asked for
pub open spec fn layer_selected_spec(layer_filter: Option<Seq<Seq<char>>>, name: Seq<char>) -> bool {
    match layer_filter {
        None => true,
        Some(names) => names.contains(name),
    }
}

/// Returns whether the layer with the given name is opened, given the names of the layers to
/// open (if any were given)
pub fn layer_selected(layer_filter: &Option<Vec<String>>, name: &str) -> (r: bool)
    ensures
        r == layer_selected_spec(
            match layer_filter {
                Some(f) => Some(f@.map_values(|s: String| s@)),
                None => None,
            },
            name@,
        ),
{
    match layer_filter {
        None => true,
        Some(names) => {
            let wanted = String::from_str(name);
            let ghost all = names@.map_values(|s: String| s@);
            let mut i: usize = 0;
            while i < names.len()
                invariant
                    i <= names@.len(),
                    match layer_filter {
                        Some(f) => f@ == names@,
                        None => false,
                    },
                    all == names@.map_values(|s: String| s@),
                    wanted@ == name@,
                    forall|j: int| 0 <= j < i ==> all[j] != name@,
                decreases names@.len() - i,
            {
                if names[i] == wanted {
                    proof {
                        assert(all[i as int] == name@);
                        assert(all.contains(name@));
                    }
                    return true;
                }
                i = i + 1;
            }
            proof {
                assert forall|j: int| 0 <= j < all.len() implies all[j] != name@ by {}
            }
            false
        },
    }
}

/// How a CRS is referred to: its authority name and code, such as `EPSG:4326`
pub open spec fn crs_reference(crs: TatCrs) -> Seq<char> {
    crs.spec_auth_name() + ":"@ + signed_decimal(crs.spec_auth_code() as int)
}

/// The line of a layer's description that names its CRS (none when it has no CRS)
pub open spec fn crs_line(crs: Option<TatCrs>) -> Seq<char> {
    match crs {
        Some(c) => "- CRS: "@ + crs_reference(c) + " ("@ + c.spec_name() + ")\n"@,
        None => Seq::empty(),
    }
}

/// The line of a layer's description for one geometry field: its name, its geometry type and,
/// when it has one, its CRS
pub open spec fn geom_field_line(field: TatGeomField) -> Seq<char> {
    let crs_part = match field.spec_crs() {
        Some(c) => ", "@ + crs_reference(c),
        None => Seq::empty(),
    };
    "    \""@ + field.spec_name() + "\" - ("@ + field.spec_geom_type() + crs_part + ")\n"@
}

/// The line of a layer's description for one attribute field: its name and the name of its type
pub open spec fn attribute_field_line(field: TatField, dtype_name: Seq<char>) -> Seq<char> {
    "    \""@ + field.spec_name() + "\" - ("@ + dtype_name + ")\n"@
}

/// The lines for the attribute fields, each with the name of its type
pub open spec fn attribute_field_lines(
    fields: Seq<TatField>,
    type_names: Seq<Seq<char>>,
) -> Seq<Seq<char>> {
    Seq::new(fields.len(), |i: int| attribute_field_line(fields[i], type_names[i]))
}

/// The description of a layer, as the layer information shows it: its name, CRS, feature count,
/// geometry fields and attribute fields. `type_names` holds the name of each attribute field's
/// type.
pub open spec fn layer_info_spec(schema: LayerSchemaState, type_names: Seq<Seq<char>>) -> Seq<
    char,
> {
    let geom_part = if schema.geom_fields.len() > 0 {
        "- Geometry fields:\n"@ + schema.geom_fields.map_values(
            |f: TatGeomField| geom_field_line(f),
        ).flatten()
    } else {
        Seq::empty()
    };
    let attr_part = if schema.attribute_fields.len() > 0 {
        "- Fields ("@ + decimal_digits(schema.attribute_fields.len()) + "):\n"@
            + attribute_field_lines(schema.attribute_fields, type_names).flatten()
    } else {
        Seq::empty()
    };
    "- Name: "@ + schema.name + "\n"@ + crs_line(schema.crs) + "- Feature Count: "@
        + decimal_digits(schema.feature_count as nat) + "\n"@ + geom_part + attr_part
}

/// Appends how a CRS is referred to
fn append_crs_reference(text: &mut String, crs: &TatCrs)
    ensures
        final(text)@ == old(text)@ + crs_reference(*crs),
{
    text.append(crs.auth_name());
    text.append(":");
    let code = i64_to_decimal(crs.auth_code() as i64);
    text.append(code.as_str());
    proof {
        assert(final(text)@ =~= old(text)@ + crs_reference(*crs));
    }
}

/// Appends the line of one geometry field
fn append_geom_field_line(text: &mut String, field: &TatGeomField)
    ensures
        final(text)@ == old(text)@ + geom_field_line(*field),
{
    let ghost start = text@;
    text.append("    \"");
    text.append(field.name());
    text.append("\" - (");
    text.append(field.geom_type());
    let ghost before_crs = text@;
    match field.crs() {
        Some(crs) => {
            text.append(", ");
            append_crs_reference(text, crs);
            proof {
                assert(text@ =~= before_crs + (", "@ + crs_reference(*crs)));
            }
        },
        None => {
            proof {
                assert(text@ =~= before_crs + Seq::<char>::empty());
            }
        },
    }
    text.append(")\n");
    proof {
        assert(text@ =~= start + geom_field_line(*field));
    }
}

/// Returns the description of a layer, as the layer information shows it. `type_names` holds
/// the name of each attribute field's type, in the order of the fields.
pub fn layer_info_text(schema: &TatLayerSchema, type_names: &Vec<String>) -> (r: String)
    requires
        type_names@.len() == schema@.attribute_fields.len(),
    ensures
        r@ == layer_info_spec(schema@, type_names@.map_values(|s: String| s@)),
{
    let ghost names = type_names@.map_values(|s: String| s@);
    let mut text = String::from_str("- Name: ");
    text.append(schema.name());
    text.append("\n");
    let ghost after_name = text@;
    match schema.crs() {
        Some(crs) => {
            text.append("- CRS: ");
            append_crs_reference(&mut text, crs);
            text.append(" (");
            text.append(crs.name());
            text.append(")\n");
            proof {
                assert(text@ =~= after_name + crs_line(schema@.crs));
            }
        },
        None => {
            proof {
                assert(text@ =~= after_name + crs_line(schema@.crs));
            }
        },
    }
    text.append("- Feature Count: ");
    let fc = u64_to_decimal(schema.feature_count());
    text.append(fc.as_str());
    text.append("\n");
    let ghost after_count = text@;
    let geom_fields = schema.geom_fields();
    let ghost geom_lines = geom_fields@.map_values(|f: TatGeomField| geom_field_line(f));
    if geom_fields.len() > 0 {
        text.append("- Geometry fields:\n");
        let ghost head = text@;
        let mut i: usize = 0;
        while i < geom_fields.len()
            invariant
                i <= geom_fields@.len(),
                geom_lines == geom_fields@.map_values(|f: TatGeomField| geom_field_line(f)),
                text@ == head + geom_lines.take(i as int).flatten(),
            decreases geom_fields@.len() - i,
        {
            append_geom_field_line(&mut text, &geom_fields[i]);
            proof {
                assert(geom_lines.take(i + 1) =~= geom_lines.take(i as int).push(
                    geom_lines[i as int],
                ));
                geom_lines.take(i as int).lemma_flatten_push(geom_lines[i as int]);
            }
            i = i + 1;
        }
        proof {
            assert(geom_lines.take(i as int) =~= geom_lines);
        }
    }
    let ghost after_geom = text@;
    proof {
        assert(after_geom == after_count + (if schema@.geom_fields.len() > 0 {
            "- Geometry fields:\n"@ + geom_lines.flatten()
        } else {
            Seq::empty()
        }));
    }
    let fields = schema.attribute_fields();
    let ghost attr_lines = attribute_field_lines(fields@, names);
    if fields.len() > 0 {
        text.append("- Fields (");
        let n = u64_to_decimal(fields.len() as u64);
        text.append(n.as_str());
        text.append("):\n");
        let ghost head = text@;
        let mut i: usize = 0;
        while i < fields.len()
            invariant
                i <= fields@.len(),
                fields@.len() == type_names@.len(),
                names == type_names@.map_values(|s: String| s@),
                attr_lines == attribute_field_lines(fields@, names),
                text@ == head + attr_lines.take(i as int).flatten(),
            decreases fields@.len() - i,
        {
            let ghost before = text@;
            text.append("    \"");
            text.append(fields[i].name());
            text.append("\" - (");
            text.append(type_names[i].as_str());
            text.append(")\n");
            proof {
                assert(text@ =~= before + attr_lines[i as int]);
                assert(attr_lines.take(i + 1) =~= attr_lines.take(i as int).push(
                    attr_lines[i as int],
                ));
                attr_lines.take(i as int).lemma_flatten_push(attr_lines[i as int]);
            }
            i = i + 1;
        }
        proof {
            assert(attr_lines.take(i as int) =~= attr_lines);
        }
    }
    proof {
        assert(text@ =~= layer_info_spec(schema@, names));
    }
    text
}

/// Builds the entry of the layer list for one layer: its name and its description, ready to be
/// scrolled through
pub fn layer_info(schema: &TatLayerSchema, type_names: &Vec<String>) -> (r: TatLayerInfo)
    requires
        type_names@.len() == schema@.attribute_fields.len(),
    ensures
        r.0@ == schema@.name,
        r.1@.text == layer_info_spec(schema@, type_names@.map_values(|s: String| s@)),
        r.1@.wf(),
        r.1@.title is None,
        r.1@.scroll_offset_v == 0,
        r.1@.scroll_offset_h == 0,
        r.1@.visible_rows == 0,
        r.1@.visible_cols == 0,
{
    let text = layer_info_text(schema, type_names);
    (String::from_str(schema.name()), TatNavigableParagraph::new(text))
}

/// The GDAL vector drivers whose data formats have been tested, by their short names
pub open spec fn tested_drivers() -> Seq<Seq<char>> {
    seq![
        "CSV"@,
        "OpenFileGDB"@,
        "GeoJSON"@,
        "GeoJSONSeq"@,
        "GML"@,
        "GPKG"@,
        "JML"@,
        "JSONFG"@,
        "MapML"@,
        "ODS"@,
        "ESRI Shapefile"@,
        "MapInfo File"@,
        "XLSX"@,
    ]
}

/// Returns the drivers a dataset may be opened with: the tested ones, or any driver (no list)
/// when untested drivers are allowed
pub fn allowed_drivers(all_drivers: bool) -> (r: Option<Vec<&'static str>>)
    ensures
        r is None <==> all_drivers,
        r matches Some(names) ==> names@.map_values(|d: &str| d@) == tested_drivers(),
{
    if all_drivers {
        return None;
    }
    let names = vec![
        "CSV",
        "OpenFileGDB",
        "GeoJSON",
        "GeoJSONSeq",
        "GML",
        "GPKG",
        "JML",
        "JSONFG",
        "MapML",
        "ODS",
        "ESRI Shapefile",
        "MapInfo File",
        "XLSX",
    ];
    proof {
        assert(names@.map_values(|d: &str| d@) =~= tested_drivers());
    }
    Some(names)
}

/// The pieces of a text between the occurrences of a separator, as `str::split` gives them: an
/// empty text is one empty piece, and a separator at either end leaves an empty piece there
pub open spec fn split_on(s: Seq<char>, sep: char) -> Seq<Seq<char>>
    decreases s.len(),
{
    if s.len() == 0 {
        seq![Seq::empty()]
    } else {
        let prev = split_on(s.drop_last(), sep);
        if s.last() == sep {
            prev.push(Seq::empty())
        } else {
            prev.update(prev.len() - 1, prev.last().push(s.last()))
        }
    }
}

proof fn lemma_split_on_not_empty(s: Seq<char>, sep: char)
    ensures
        split_on(s, sep).len() >= 1,
    decreases s.len(),
{
    if s.len() > 0 {
        lemma_split_on_not_empty(s.drop_last(), sep);
    }
}

/// Returns the names of the layers to open from the comma-separated list given on the command
/// line (no list when none was given)
pub fn parse_layer_filter(layers: Option<String>) -> (r: Option<Vec<String>>)
    ensures
        r is None <==> layers is None,
        r matches Some(names) ==> names@.map_values(|n: String| n@) == split_on(
            layers->0@,
            ',',
        ),
{
    let text = match layers {
        None => return None,
        Some(t) => t,
    };
    let n = text.as_str().unicode_len();
    let mut names: Vec<String> = Vec::new();
    let mut current = String::new();
    let mut i: usize = 0;
    while i < n
        invariant
            n == text@.len(),
            i <= n,
            names@.map_values(|s: String| s@).push(current@) == split_on(text@.take(i as int), ','),
        decreases n - i,
    {
        let c = text.as_str().get_char(i);
        let ghost before_names = names@.map_values(|s: String| s@);
        let ghost before_current = current@;
        proof {
            assert(text@.take(i + 1).drop_last() =~= text@.take(i as int));
            assert(text@.take(i + 1).last() == c);
            lemma_split_on_not_empty(text@.take(i as int), ',');
        }
        if c == ',' {
            names.push(current);
            current = String::new();
            proof {
                assert(names@.map_values(|s: String| s@) =~= before_names.push(before_current));
                assert(names@.map_values(|s: String| s@).push(current@) =~= split_on(
                    text@.take(i + 1),
                    ',',
                ));
            }
        } else {
            string_push(&mut current, c);
            proof {
                assert(names@.map_values(|s: String| s@).push(current@) =~= split_on(
                    text@.take(i + 1),
                    ',',
                ));
            }
        }
        i = i + 1;
    }
    names.push(current);
    proof {
        assert(text@.take(n as int) =~= text@);
    }
    Some(names)
}

} // verus!
