use vstd::prelude::*;

verus! {

/// Hint in the title of the dataset information, telling how to open the help
pub const SHOW_HELP: &'static str = " <type ? to show help> ";
/// Title of the program
pub const TITLE_PROGRAM: &'static str = " Terminal Attribute Table ";
/// Title of the dataset information
pub const TITLE_DATASET_INFO: &'static str = " Dataset ";
/// Title of the layer information
pub const TITLE_LAYER_INFO: &'static str = " Layer Information ";
/// Title of the pop-up which shows the GDAL log
pub const TITLE_GDAL_LOG: &'static str = " GDAL Log ";
/// Title of the layer list
pub const TITLE_LAYER_LIST: &'static str = " Layers ";
/// Title of the help pop-up
pub const TITLE_HELP: &'static str = " Help ";
/// Hint at the bottom of a pop-up, telling how to close it
pub const POPUP_HINT: &'static str = " <press q to close> ";
/// Help text of the main menu
pub const HELP_TEXT_LAYERSELECT: &'static str = "Keybinds for Main Menu
----------------------
Basic Navigation:
    Left:  or h
    Down:  or j
    Up:  or k
    Right:  or l
    Open Table: Enter
    Switch between Layer List or Info: Tab and SHIFT+Tab or Left/Right

General:
    Previous Menu: q
    Quit: CTRL + C or q when in Main Menu
    Show Help: ?

Advanced Navigation:
    Scroll to Top: g
    Scroll to Bottom: G
    Scroll Down (half page): CTRL + D
    Scroll Up (half page): CTRL + U
    Scroll Down (full page): CTRL + F or PageDown
    Scroll Up (full page): CTRL + B or PageUp

Miscellaneous:
    Open GDAL Log: L

Remarks
-------
This is the main menu of tat. You may go through and inspect the available layers
in the selected dataset. You can also select a layer and enter into its attribute
table.
";
/// Help text of the attribute table
pub const HELP_TEXT_TABLE: &'static str = "Keybinds for Attribute Table
----------------------------
Basic Navigation:
    Left:  or h
    Down:  or j
    Up:  or k
    Right:  or l

General:
    Previous Menu: q
    Quit: CTRL + C
    Show Help: ?

Advanced Navigation:
    Jump to First Column: Home or 0
    Jump to Last Column: End or $
    Scroll to Top: g
    Scroll to Bottom: G
    Scroll Down (half page): CTRL + D
    Scroll Up (half page): CTRL + U
    Scroll Down (full page): CTRL + F or PageDown
    Scroll Up (full page): CTRL + B or PageUp

Miscellaneous:
    Open GDAL Log: L

Remarks
-------
This is the attribute table itself. You can inspect the features in the selected
layer.
";
/// Title of the pop-up which shows the program's own log
pub const TITLE_DEBUG_LOG: &'static str = " Debug Log ";
/// What the table shows for a cell without a value
pub const MISSING_VALUE: &'static str = "NULL";

} // verus!
