//! Terminal Attribute Table: the state and rules behind a terminal viewer for the attribute
//! tables of geospatial vector datasets.
//!
//! The crate holds the navigation logic of the viewer's widgets (scrollable paragraphs, the layer
//! list, the attribute table, the number input dialog), the decisions of the main application
//! state and the text the viewer shows. Drawing on the terminal, reading the dataset through GDAL
//! and talking to the clipboard happen around it.

pub mod types;
pub mod text;
pub mod navparagraph;
pub mod numberinput;
pub mod layer;
pub mod layerschema;
pub mod table;
pub mod layerlist;
pub mod shared;
pub mod dataset;
pub mod layout;
pub mod app;
