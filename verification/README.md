# tat — Terminal Attribute Table

A terminal viewer for the attribute tables of geospatial vector datasets (anything GDAL reads
as vectors).

## Layout

- `src/` is the library, written in Verus: the navigation of the viewer's widgets (scrollable
  paragraphs, the layer list, the attribute table and the number input dialog), the key, mouse
  and dataset handling of the main application state, the layout of the screen, and the texts
  the viewer shows (layer and dataset descriptions, error messages, clipboard feedback). Every
  function carries a contract that Verus proves; the laws that span several functions are the
  `law_*` proof functions.
- `tests/` runs the library on concrete values.
- `app/` is the program around it: the command line, reading the dataset through GDAL, terminal
  events, drawing with ratatui, the clipboard and the log files.

Calls into other crates (ratatui's layout solver, unicode-segmentation's grapheme clusters,
a few `String` and `str` methods) go through small trusted functions whose contracts state what
those crates show of their results.
