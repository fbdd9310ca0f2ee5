use vstd::prelude::*;
use vstd::string::*;

use crate::dataset::{DatasetRequest, DatasetResponse};
use crate::layer::LayerState;
use crate::layerlist::{LayerListState, TatLayerList};
use crate::layout::{
    part_fits, table_parts_in_range, table_rects, table_rects_fit, table_rects_of, table_split,
    TatDirection,
};
use crate::navparagraph::{ParagraphState, TatNavigableParagraph};
use crate::numberinput::{
    law_cursor_stays_within_digits, NumberInputState, TatKeyCode, TatNumberInput,
    TatNumberInputResult,
};
use crate::shared::{
    HELP_TEXT_LAYERSELECT, HELP_TEXT_TABLE, MISSING_VALUE, TITLE_DEBUG_LOG, TITLE_GDAL_LOG,
    TITLE_HELP,
};
use crate::table::{law_down_then_up_returns_to_row, TableModel, TableRects, TatRect, TatTable};
use crate::text::{
    decimal_digits, first_graphemes, longest_line_len, take_graphemes, text_lines, u64_to_decimal,
};
use crate::types::{TatNavHorizontal, TatNavVertical};

verus! {

broadcast use vstd::string::group_string_axioms;

/// Specifies the available menus of the program
#[derive(Clone, Copy, Debug, PartialEq, Eq, Structural)]
pub enum TatMenu {
    MainMenu,
    TableView,
}

/// Specifies which section in the main menu has the focus
#[derive(Clone, Copy, Debug, PartialEq, Eq, Structural)]
pub enum TatLayerSelectFocusedBlock {
    LayerList,
    LayerInfo,
    PreviewTable,
}

/// The kinds of mouse events that the program tells apart
#[derive(Clone, Copy, Debug, PartialEq, Eq, Structural)]
pub enum TatMouseEventKind {
    ScrollUp,
    ScrollDown,
    /// Any other mouse event
    Other,
}

/// What the program asks of its surroundings after handling a key
#[derive(Debug, PartialEq, Eq)]
pub enum TatAppAction {
    /// Nothing is asked
    Nothing,
    /// Copy this value to the system clipboard, then report back with `finish_copy`
    CopyToClipboard(String),
    /// Read the GDAL log and show it with `show_gdal_log`
    ShowGdalLog,
    /// Read the program's own log and show it with `show_debug_log`
    ShowDebugLog,
}

/// The feedback shown when there is no clipboard to copy to
pub const NO_CLIPBOARD_FEEDBACK: &'static str =
    "ERROR! Could not copy to clipboard: clipboard context does not exist!";

/// The feedback shown when the selected cell has no value to copy
pub const NULL_NOT_COPIED_FEEDBACK: &'static str = "NULL value NOT copied to clipboard!";

/// Copied values of at least this many characters are cut to this many grapheme clusters in the
/// feedback
pub const MAX_COPY_FEEDBACK_LENGTH: usize = 50;

/// What the program holds: the menu and section in focus, the open pop-up, dialog and feedback,
/// the widgets and the texts it shows
pub struct AppState {
    pub current_menu: TatMenu,
    pub quit: bool,
    pub modal_popup: Option<ParagraphState>,
    pub table: TableModel,
    pub layerlist: LayerListState,
    pub focused_section: TatLayerSelectFocusedBlock,
    pub has_clipboard: bool,
    pub table_area: TatRect,
    pub full_rects: TableRects,
    pub number_input: Option<NumberInputState>,
    pub clipboard_feedback: Option<Seq<char>>,
    pub dataset_info_text: Seq<char>,
}

/// A paragraph freshly made from a text and given a title
pub open spec fn fresh_paragraph(text: Seq<char>, title: Seq<char>) -> ParagraphState {
    ParagraphState {
        title: Some(title),
        text,
        total_lines: text_lines(text).len() as usize,
        scroll_offset_v: 0,
        scroll_offset_h: 0,
        visible_rows: 0,
        visible_cols: 0,
        max_line_len: longest_line_len(text_lines(text)) as usize,
    }
}

/// A log's lines as a log pop-up shows them: each line after a line break
pub open spec fn log_text(lines: Seq<Seq<char>>) -> Seq<char> {
    lines.map_values(|line: Seq<char>| "\n"@ + line).flatten()
}

/// The feedback shown after a value was copied to the clipboard. A value of
/// [`MAX_COPY_FEEDBACK_LENGTH`] characters or more is cut to that many grapheme clusters and ends
/// with an ellipsis.
pub open spec fn copied_feedback(value: Seq<char>) -> Seq<char> {
    if value.len() < MAX_COPY_FEEDBACK_LENGTH {
        "\""@ + value + "\" copied to clipboard!"@
    } else {
        "\""@ + first_graphemes(value, MAX_COPY_FEEDBACK_LENGTH as nat) + "…\" copied to clipboard!"@
    }
}

/// The feedback shown after copying to the clipboard: what was copied, or why nothing was
pub open spec fn copy_result_feedback(value: Seq<char>, result: Result<(), Seq<char>>) -> Seq<char> {
    match result {
        Ok(()) => copied_feedback(value),
        Err(e) => "ERROR! Could not copy to clipboard: "@ + e,
    }
}

impl AppState {
    /// The table keeps its own invariant, and the cursor of an open number input stays within
    /// the typed digits
    pub open spec fn wf(self) -> bool {
        &&& self.table.wf()
        &&& self.number_input matches Some(n) ==> n.wf() && n.cursor_pos <= n.string.len()
    }

    /// Whether the attribute table is the menu shown
    pub open spec fn in_table(self) -> bool {
        self.current_menu == TatMenu::TableView
    }

    /// Whether a pop-up is open
    pub open spec fn popup_open(self) -> bool {
        self.modal_popup is Some
    }

    /// Whether vertical navigation goes to a paragraph, list or table that can take it: the
    /// arithmetic of the paragraph or table stays in range, and the list is not asked for its
    /// last layer while it has none
    pub open spec fn delegate_v_in_range(self, conf: TatNavVertical) -> bool {
        match self.modal_popup {
            Some(p) => p.vertical_sizes_in_range() && (!(conf is Specific) || p.fits_vertically()),
            None => match self.current_menu {
                TatMenu::MainMenu => match self.focused_section {
                    TatLayerSelectFocusedBlock::LayerList => conf is Last
                        ==> self.layerlist.names.len() > 0,
                    TatLayerSelectFocusedBlock::LayerInfo => self.layerlist.info_nav_v_in_range(
                        conf,
                    ),
                    TatLayerSelectFocusedBlock::PreviewTable => self.table.nav_v_in_range(conf),
                },
                TatMenu::TableView => self.table.nav_v_in_range(conf),
            },
        }
    }

    /// The state after vertical navigation goes to the pop-up, or else to the section or menu in
    /// focus. Moving through the layer list selects the layer in the table and resets it.
    pub open spec fn after_delegate_v(self, conf: TatNavVertical) -> AppState {
        match self.modal_popup {
            Some(p) => AppState {
                modal_popup: Some(ParagraphState { scroll_offset_v: p.nav_v_offset(conf), ..p }),
                ..self
            },
            None => match self.current_menu {
                TatMenu::MainMenu => match self.focused_section {
                    TatLayerSelectFocusedBlock::LayerList => {
                        let list = self.layerlist.after_nav(conf);
                        let table = match list.layer_index() {
                            Some(i) => TableModel { layer_index: i, ..self.table },
                            None => self.table,
                        };
                        AppState { layerlist: list, table: table.reset_result(), ..self }
                    },
                    TatLayerSelectFocusedBlock::LayerInfo => AppState {
                        layerlist: self.layerlist.after_info_nav_v(conf),
                        ..self
                    },
                    TatLayerSelectFocusedBlock::PreviewTable => AppState {
                        table: self.table.nav_v_result(conf),
                        ..self
                    },
                },
                TatMenu::TableView => AppState { table: self.table.nav_v_result(conf), ..self },
            },
        }
    }

    /// Whether horizontal navigation goes to a table whose selected column is a number
    pub open spec fn delegate_h_in_range(self) -> bool {
        match self.modal_popup {
            Some(_) => true,
            None => match self.current_menu {
                TatMenu::MainMenu => self.focused_section
                    == TatLayerSelectFocusedBlock::PreviewTable ==> self.table.current_column()
                    <= u64::MAX,
                TatMenu::TableView => self.table.current_column() <= u64::MAX,
            },
        }
    }

    /// The state after horizontal navigation goes to the pop-up, or else to the section or menu
    /// in focus (the layer list does not move horizontally)
    pub open spec fn after_delegate_h(self, conf: TatNavHorizontal) -> AppState {
        match self.modal_popup {
            Some(p) => AppState {
                modal_popup: Some(ParagraphState { scroll_offset_h: p.nav_h_offset(conf), ..p }),
                ..self
            },
            None => match self.current_menu {
                TatMenu::MainMenu => match self.focused_section {
                    TatLayerSelectFocusedBlock::LayerList => self,
                    TatLayerSelectFocusedBlock::LayerInfo => AppState {
                        layerlist: self.layerlist.after_info_nav_h(conf),
                        ..self
                    },
                    TatLayerSelectFocusedBlock::PreviewTable => AppState {
                        table: self.table.nav_h_result(conf),
                        ..self
                    },
                },
                TatMenu::TableView => AppState { table: self.table.nav_h_result(conf), ..self },
            },
        }
    }

    /// The state after going back: an open pop-up closes; else, unless feedback is shown, the
    /// table goes back to the main menu (and is reset) and the main menu ends the program
    pub open spec fn after_previous_menu(self) -> AppState {
        if self.modal_popup is Some {
            AppState { modal_popup: None, ..self }
        } else if self.clipboard_feedback is Some {
            self
        } else {
            match self.current_menu {
                TatMenu::TableView => AppState {
                    table: self.table.reset_result(),
                    current_menu: TatMenu::MainMenu,
                    ..self
                },
                TatMenu::MainMenu => AppState { quit: true, ..self },
            }
        }
    }

    /// The state after moving the focus to the next (or, with `back`, the previous) section of
    /// the main menu, which stops at the first and the last section
    pub open spec fn after_cycle(self, back: bool) -> AppState {
        let next = match self.focused_section {
            TatLayerSelectFocusedBlock::LayerList => if back {
                TatLayerSelectFocusedBlock::LayerList
            } else {
                TatLayerSelectFocusedBlock::LayerInfo
            },
            TatLayerSelectFocusedBlock::LayerInfo => if back {
                TatLayerSelectFocusedBlock::LayerList
            } else {
                TatLayerSelectFocusedBlock::PreviewTable
            },
            TatLayerSelectFocusedBlock::PreviewTable => if back {
                TatLayerSelectFocusedBlock::LayerInfo
            } else {
                TatLayerSelectFocusedBlock::PreviewTable
            },
        };
        AppState { focused_section: next, ..self }
    }

    /// The help text of the menu shown
    pub open spec fn help_text(self) -> Seq<char> {
        match self.current_menu {
            TatMenu::TableView => HELP_TEXT_TABLE@,
            TatMenu::MainMenu => HELP_TEXT_LAYERSELECT@,
        }
    }

    /// The state with the help of the menu shown in a pop-up
    pub open spec fn after_show_help(self) -> AppState {
        AppState { modal_popup: Some(fresh_paragraph(self.help_text(), TITLE_HELP@)), ..self }
    }

    /// The name of the selected column, as the title of the value pop-up gives it
    pub open spec fn column_name_text(self) -> Seq<char> {
        if self.table.has_layer() {
            match self.table.current_layer().field_name(
                (self.table.current_column() as u64) as i32 as int,
            ) {
                Some(n) => n,
                None => "UNKNOWN COLUMN"@,
            }
        } else {
            "UNKNOWN COLUMN"@
        }
    }

    /// The title of the pop-up with the selected cell's value: the feature's number and the
    /// column's name
    pub open spec fn full_value_title(self) -> Seq<char> {
        " Feature "@ + decimal_digits(self.table.current_row() as nat) + " - Value of \""@
            + self.column_name_text() + "\" "@
    }

    /// The text of the pop-up with the selected cell's value
    pub open spec fn full_value_text(self) -> Seq<char> {
        match self.table.selected_value() {
            Some(v) => v,
            None => MISSING_VALUE@,
        }
    }

    /// The state with the selected cell's value shown in a pop-up
    pub open spec fn after_full_value_popup(self) -> AppState {
        AppState {
            modal_popup: Some(fresh_paragraph(self.full_value_text(), self.full_value_title())),
            ..self
        }
    }

    /// The areas of the full table, laid out when the area was last set
    pub open spec fn full_table_rects(self) -> TableRects {
        self.full_rects
    }

    /// Whether the full table can take the area of the program
    pub open spec fn full_table_in_range(self) -> bool {
        self.table.set_rects_in_range(self.full_table_rects())
    }

    /// The state with the table placed in the area of the program
    pub open spec fn after_place_full_table(self) -> AppState {
        AppState { table: self.table.set_rects_result(self.full_table_rects()), ..self }
    }

    /// The state after opening the table view
    pub open spec fn after_open_table(self) -> AppState {
        AppState { current_menu: TatMenu::TableView, ..self.after_place_full_table() }
    }

    /// The state after the preview table is placed in `area` with the table's areas `rects`,
    /// the full table's areas having been laid out anew as `full_rects`
    pub open spec fn after_place_preview_table(
        self,
        area: TatRect,
        rects: TableRects,
        full_rects: TableRects,
    ) -> AppState {
        AppState {
            table_area: area,
            full_rects,
            table: self.table.set_rects_result(rects),
            ..self
        }
    }

    /// Whether copying the selected cell's value can read it
    pub open spec fn copy_in_range(self) -> bool {
        self.has_clipboard ==> self.table.selected_value_in_range()
    }

    /// The state and the request after asking to copy the selected cell's value: without a
    /// clipboard, or without a value, the feedback says so; else the value is to be copied
    pub open spec fn after_copy(self) -> (AppState, Option<Seq<char>>) {
        if !self.has_clipboard {
            (AppState { clipboard_feedback: Some(NO_CLIPBOARD_FEEDBACK@), ..self }, None)
        } else {
            match self.table.selected_value() {
                Some(v) => (self, Some(v)),
                None => (
                    AppState { clipboard_feedback: Some(NULL_NOT_COPIED_FEEDBACK@), ..self },
                    None,
                ),
            }
        }
    }

    /// Whether Enter in the main menu opens the table: no pop-up is open and the preview table
    /// is in focus, or the layer list is and a layer is selected
    pub open spec fn enter_opens_table(self) -> bool {
        &&& !self.popup_open()
        &&& self.focused_section == TatLayerSelectFocusedBlock::PreviewTable || (
        self.focused_section == TatLayerSelectFocusedBlock::LayerList
            && self.layerlist.layer_index() is Some)
    }
}

/// The area at the origin that covers nothing
pub open spec fn zero_rect() -> TatRect {
    TatRect { x: 0, y: 0, width: 0, height: 0 }
}

/// The program's main state, which handles key, mouse and dataset events and decides what is
/// shown
pub struct TatApp {
    current_menu: TatMenu,
    quit: bool,
    modal_popup: Option<TatNavigableParagraph>,
    table: TatTable,
    layerlist: TatLayerList,
    focused_section: TatLayerSelectFocusedBlock,
    has_clipboard: bool,
    table_area: TatRect,
    full_rects: TableRects,
    number_input: Option<TatNumberInput>,
    clipboard_feedback: Option<String>,
    dataset_info_text: String,
}

impl View for TatApp {
    type V = AppState;

    closed spec fn view(&self) -> AppState {
        AppState {
            current_menu: self.current_menu,
            quit: self.quit,
            modal_popup: match self.modal_popup {
                Some(p) => Some(p@),
                None => None,
            },
            table: self.table@,
            layerlist: self.layerlist@,
            focused_section: self.focused_section,
            has_clipboard: self.has_clipboard,
            table_area: self.table_area,
            full_rects: self.full_rects,
            number_input: match self.number_input {
                Some(n) => Some(n@),
                None => None,
            },
            clipboard_feedback: match self.clipboard_feedback {
                Some(f) => Some(f@),
                None => None,
            },
            dataset_info_text: self.dataset_info_text@,
        }
    }
}

/// Makes a paragraph from a text and gives it a title
fn titled_paragraph(text: String, title: String) -> (p: TatNavigableParagraph)
    ensures
        p@ == fresh_paragraph(text@, title@),
{
    TatNavigableParagraph::new(text).with_title(title)
}

/// Joins a log's lines, each after a line break
fn join_log_lines(lines: &Vec<String>) -> (r: String)
    ensures
        r@ == log_text(lines@.map_values(|s: String| s@)),
{
    let ghost all = lines@.map_values(|s: String| s@);
    let ghost pieces = all.map_values(|line: Seq<char>| "\n"@ + line);
    let mut text = String::new();
    let mut i: usize = 0;
    while i < lines.len()
        invariant
            i <= lines@.len(),
            all == lines@.map_values(|s: String| s@),
            pieces == all.map_values(|line: Seq<char>| "\n"@ + line),
            text@ == pieces.take(i as int).flatten(),
        decreases lines@.len() - i,
    {
        let ghost before = text@;
        text.append("\n");
        text.append(lines[i].as_str());
        proof {
            assert(text@ =~= before + pieces[i as int]);
            assert(pieces.take(i + 1) =~= pieces.take(i as int).push(pieces[i as int]));
            pieces.take(i as int).lemma_flatten_push(pieces[i as int]);
        }
        i = i + 1;
    }
    proof {
        assert(pieces.take(i as int) =~= pieces);
    }
    text
}

/// Returns the feedback shown after copying `value` to the clipboard
pub fn copy_feedback(value: &str, result: Result<(), String>) -> (r: String)
    ensures
        r@ == copy_result_feedback(
            value@,
            match result {
                Ok(()) => Ok(()),
                Err(e) => Err(e@),
            },
        ),
{
    match result {
        Ok(()) => {
            let mut text = String::from_str("\"");
            if value.unicode_len() < MAX_COPY_FEEDBACK_LENGTH {
                text.append(value);
                text.append("\" copied to clipboard!");
            } else {
                let substring = take_graphemes(value, MAX_COPY_FEEDBACK_LENGTH);
                text.append(substring.as_str());
                text.append("…\" copied to clipboard!");
            }
            text
        },
        Err(e) => {
            let mut text = String::from_str("ERROR! Could not copy to clipboard: ");
            text.append(e.as_str());
            text
        },
    }
}

impl TatApp {
    /// Constructs a new object; `has_clipboard` tells whether the system clipboard could be
    /// reached
    pub fn new(has_clipboard: bool) -> (app: Self)
        ensures
            app@.wf(),
            app@.current_menu == TatMenu::MainMenu,
            !app@.quit,
            app@.modal_popup is None,
            app@.focused_section == TatLayerSelectFocusedBlock::LayerList,
            app@.has_clipboard == has_clipboard,
            app@.table_area == zero_rect(),
            app@.full_rects == (zero_rect(), zero_rect(), zero_rect(), zero_rect()),
            table_rects_fit(app@.table_area, false, app@.full_rects),
            app@.number_input is None,
            app@.clipboard_feedback is None,
            app@.dataset_info_text.len() == 0,
            app@.table.layers.len() == 0,
            app@.table.layer_index == 0,
            app@.table.top_row == 1,
            app@.table.first_column == 0,
            app@.table.selected_row == Some(0usize),
            app@.table.selected_column == Some(0usize),
            app@.table.table_rect.spec_is_empty(),
            app@.layerlist.names.len() == 0,
            app@.layerlist.infos.len() == 0,
            app@.layerlist.selected == Some(0usize),
            app@.layerlist.available_rows == 0,
    {
        let zero = TatRect::default();
        let full_rects = match table_rects(zero, false) {
            Some(rects) => rects,
            None => (zero, zero, zero, zero),
        };
        proof {
            let (rows, cols) = choose|rows: Seq<TatRect>, cols: Seq<TatRect>|
                #[trigger] table_split(zero, false, rows, cols) && table_parts_in_range(cols, false)
                    && full_rects == table_rects_of(rows, cols, false);
            assert(part_fits(zero, TatDirection::Vertical, rows[0]));
            assert(part_fits(zero, TatDirection::Vertical, rows[1]));
            assert(part_fits(rows[0], TatDirection::Horizontal, cols[0]));
            assert(part_fits(rows[0], TatDirection::Horizontal, cols[1]));
            assert(part_fits(rows[0], TatDirection::Horizontal, cols[2]));
        }
        Self {
            current_menu: TatMenu::MainMenu,
            quit: false,
            modal_popup: None,
            layerlist: TatLayerList::new(),
            table: TatTable::new(),
            focused_section: TatLayerSelectFocusedBlock::LayerList,
            has_clipboard,
            table_area: zero,
            full_rects,
            number_input: None,
            clipboard_feedback: None,
            dataset_info_text: String::new(),
        }
    }

    /// The requests sent to the dataset when the program starts: the dataset's description, the
    /// opening of its layers and their descriptions
    pub fn startup_requests() -> (r: Vec<DatasetRequest>)
        ensures
            r@.len() == 3,
            r@[0] is DatasetInfo,
            r@[1] is BuildLayers,
            r@[2] is AllLayerInfos,
    {
        let mut r = Vec::new();
        r.push(DatasetRequest::DatasetInfo);
        r.push(DatasetRequest::BuildLayers);
        r.push(DatasetRequest::AllLayerInfos);
        r
    }

    /// Returns the menu shown
    pub fn current_menu(&self) -> (r: TatMenu)
        ensures
            r == self@.current_menu,
    {
        self.current_menu
    }

    /// Returns whether the program is to end
    pub fn quit(&self) -> (r: bool)
        ensures
            r == self@.quit,
    {
        self.quit
    }

    /// Returns the open pop-up (if any)
    pub fn modal_popup(&self) -> (r: Option<&TatNavigableParagraph>)
        ensures
            r is Some <==> self@.modal_popup is Some,
            r is Some ==> r->0@ == self@.modal_popup->0,
    {
        match &self.modal_popup {
            Some(p) => Some(p),
            None => None,
        }
    }

    /// Returns the attribute table
    pub fn table(&self) -> (r: &TatTable)
        ensures
            r@ == self@.table,
    {
        &self.table
    }

    /// Returns the layer list
    pub fn layerlist(&self) -> (r: &TatLayerList)
        ensures
            r@ == self@.layerlist,
    {
        &self.layerlist
    }

    /// Returns the section of the main menu in focus
    pub fn focused_section(&self) -> (r: TatLayerSelectFocusedBlock)
        ensures
            r == self@.focused_section,
    {
        self.focused_section
    }

    /// Returns the area the table was last placed in
    pub fn table_area(&self) -> (r: TatRect)
        ensures
            r == self@.table_area,
    {
        self.table_area
    }

    /// Returns the open number input dialog (if any)
    pub fn number_input(&self) -> (r: Option<&TatNumberInput>)
        ensures
            r is Some <==> self@.number_input is Some,
            r is Some ==> r->0@ == self@.number_input->0,
    {
        match &self.number_input {
            Some(n) => Some(n),
            None => None,
        }
    }

    /// Returns the clipboard feedback shown (if any)
    pub fn clipboard_feedback(&self) -> (r: Option<&str>)
        ensures
            r is Some <==> self@.clipboard_feedback is Some,
            r is Some ==> r->0@ == self@.clipboard_feedback->0,
    {
        match &self.clipboard_feedback {
            Some(f) => Some(f.as_str()),
            None => None,
        }
    }

    /// Returns the description of the dataset
    pub fn dataset_info_text(&self) -> (r: &str)
        ensures
            r@ == self@.dataset_info_text,
    {
        self.dataset_info_text.as_str()
    }

    /// Terminates the program
    fn close(&mut self)
        ensures
            final(self)@ == (AppState { quit: true, ..old(self)@ }),
    {
        self.quit = true;
    }

    /// Closes any active pop-up dialog
    pub fn close_popup(&mut self)
        ensures
            final(self)@ == (AppState { modal_popup: None, ..old(self)@ }),
    {
        self.modal_popup = None;
    }

    /// Goes back in menus, also closing pop-ups and ultimately terminating program if in the main
    /// menu
    pub fn previous_menu(&mut self)
        requires
            old(self)@.wf(),
        ensures
            final(self)@ == old(self)@.after_previous_menu(),
            final(self)@.wf(),
    {
        if self.modal_popup.is_some() {
            self.close_popup();
            return ;
        }
        if self.clipboard_feedback.is_some() {
            return ;
        }
        match self.current_menu {
            TatMenu::TableView => {
                self.table.reset();
                self.current_menu = TatMenu::MainMenu;
            },
            TatMenu::MainMenu => self.close(),
        }
    }

    /// Cycles through the available sections in the main menu (non-looping)
    pub fn cycle_section_selection(&mut self, back: bool)
        ensures
            final(self)@ == old(self)@.after_cycle(back),
    {
        self.focused_section = match self.focused_section {
            TatLayerSelectFocusedBlock::LayerList => if back {
                return ;
            } else {
                TatLayerSelectFocusedBlock::LayerInfo
            },
            TatLayerSelectFocusedBlock::LayerInfo => if back {
                TatLayerSelectFocusedBlock::LayerList
            } else {
                TatLayerSelectFocusedBlock::PreviewTable
            },
            TatLayerSelectFocusedBlock::PreviewTable => if back {
                TatLayerSelectFocusedBlock::LayerInfo
            } else {
                return ;
            },
        };
    }

    /// Shows the help pop-up dialog according to the current menu
    pub fn show_help(&mut self)
        ensures
            final(self)@ == old(self)@.after_show_help(),
    {
        let help_text = match self.current_menu {
            TatMenu::TableView => String::from_str(HELP_TEXT_TABLE),
            TatMenu::MainMenu => String::from_str(HELP_TEXT_LAYERSELECT),
        };
        self.modal_popup = Some(titled_paragraph(help_text, String::from_str(TITLE_HELP)));
    }

    /// Opens the GDAL log, given its lines, in a pop-up
    pub fn show_gdal_log(&mut self, lines: Vec<String>)
        ensures
            final(self)@ == (AppState {
                modal_popup: Some(
                    fresh_paragraph(
                        log_text(lines@.map_values(|s: String| s@)),
                        TITLE_GDAL_LOG@,
                    ),
                ),
                ..old(self)@
            }),
    {
        let text = join_log_lines(&lines);
        self.modal_popup = Some(titled_paragraph(text, String::from_str(TITLE_GDAL_LOG)));
    }

    /// Opens the program's own log in a pop-up, given its lines or why it could not be read
    pub fn show_debug_log(&mut self, contents: Result<Vec<String>, String>)
        ensures
            final(self)@ == (AppState {
                modal_popup: Some(
                    fresh_paragraph(
                        match contents {
                            Ok(lines) => log_text(lines@.map_values(|s: String| s@)),
                            Err(e) => "Could not open file: "@ + e@,
                        },
                        TITLE_DEBUG_LOG@,
                    ),
                ),
                ..old(self)@
            }),
    {
        let text = match &contents {
            Ok(lines) => join_log_lines(lines),
            Err(e) => {
                let mut t = String::from_str("Could not open file: ");
                t.append(e.as_str());
                t
            },
        };
        self.modal_popup = Some(titled_paragraph(text, String::from_str(TITLE_DEBUG_LOG)));
    }

    /// Opens a pop-up which displays the full value of the selected cell in the table
    pub fn show_full_value_popup(&mut self)
        requires
            old(self)@.wf(),
            old(self)@.table.selected_value_in_range(),
        ensures
            final(self)@ == old(self)@.after_full_value_popup(),
    {
        let value = match self.table.selected_value() {
            Some(v) => v,
            None => String::from_str(MISSING_VALUE),
        };
        let row = self.table.current_row();
        let mut title = String::from_str(" Feature ");
        let row_text = u64_to_decimal(row);
        title.append(row_text.as_str());
        title.append(" - Value of \"");
        match self.table.current_column_name() {
            Some(name) => title.append(name.as_str()),
            None => title.append("UNKNOWN COLUMN"),
        }
        title.append("\" ");
        proof {
            assert(title@ =~= old(self)@.full_value_title());
        }
        self.modal_popup = Some(titled_paragraph(value, title));
    }

    /// Shows the feedback after the selected value was handed to the clipboard, with the
    /// clipboard's error message when it refused it
    pub fn finish_copy(&mut self, value: &str, result: Result<(), String>)
        ensures
            final(self)@ == (AppState {
                clipboard_feedback: Some(
                    copy_result_feedback(
                        value@,
                        match result {
                            Ok(()) => Ok(()),
                            Err(e) => Err(e@),
                        },
                    ),
                ),
                ..old(self)@
            }),
    {
        self.clipboard_feedback = Some(copy_feedback(value, result));
    }

    /// Asks to copy the selected cell's value to the clipboard: without a clipboard or a value
    /// the feedback says so at once, else the value is returned for copying
    fn copy_table_value_to_clipboard(&mut self) -> (r: Option<String>)
        requires
            old(self)@.wf(),
            old(self)@.copy_in_range(),
        ensures
            final(self)@ == old(self)@.after_copy().0,
            match r {
                Some(v) => old(self)@.after_copy().1 == Some(v@),
                None => old(self)@.after_copy().1 is None,
            },
    {
        if !self.has_clipboard {
            self.clipboard_feedback = Some(String::from_str(NO_CLIPBOARD_FEEDBACK));
            return None;
        }
        match self.table.selected_value() {
            Some(v) => Some(v),
            None => {
                self.clipboard_feedback = Some(String::from_str(NULL_NOT_COPIED_FEEDBACK));
                None
            },
        }
    }
}

/// What the program asks of its surroundings, as the specifications speak of it
pub enum AppRequest {
    Nothing,
    CopyToClipboard(Seq<char>),
    ShowGdalLog,
    ShowDebugLog,
}

impl View for TatAppAction {
    type V = AppRequest;

    open spec fn view(&self) -> AppRequest {
        match self {
            TatAppAction::Nothing => AppRequest::Nothing,
            TatAppAction::CopyToClipboard(v) => AppRequest::CopyToClipboard(v@),
            TatAppAction::ShowGdalLog => AppRequest::ShowGdalLog,
            TatAppAction::ShowDebugLog => AppRequest::ShowDebugLog,
        }
    }
}

/// The vertical navigation a key asks for (if any): `g` and `G` go to the first and last row,
/// `k`/Up and `j`/Down move by one, CTRL with `d`/`u` by half a page and with `f`/`b` or
/// PageDown/PageUp by a page
pub open spec fn nav_v_key(code: TatKeyCode, ctrl_down: bool) -> Option<TatNavVertical> {
    match code {
        TatKeyCode::Char(c) => if c == 'g' {
            Some(TatNavVertical::First)
        } else if c == 'G' {
            Some(TatNavVertical::Last)
        } else if c == 'k' {
            Some(TatNavVertical::UpOne)
        } else if c == 'j' {
            Some(TatNavVertical::DownOne)
        } else if c == 'd' && ctrl_down {
            Some(TatNavVertical::DownHalfParagraph)
        } else if c == 'u' && ctrl_down {
            Some(TatNavVertical::UpHalfParagraph)
        } else if c == 'f' && ctrl_down {
            Some(TatNavVertical::DownParagraph)
        } else if c == 'b' && ctrl_down {
            Some(TatNavVertical::UpParagraph)
        } else {
            None
        },
        TatKeyCode::Up => Some(TatNavVertical::UpOne),
        TatKeyCode::Down => Some(TatNavVertical::DownOne),
        TatKeyCode::PageDown => Some(TatNavVertical::DownParagraph),
        TatKeyCode::PageUp => Some(TatNavVertical::UpParagraph),
        _ => None,
    }
}

/// The horizontal navigation a key asks for (if any): `h`/Left and `l`/Right move by one,
/// `0`/Home and `$`/End go to the first and last column
pub open spec fn nav_h_key(code: TatKeyCode) -> Option<TatNavHorizontal> {
    match code {
        TatKeyCode::Char(c) => if c == 'h' {
            Some(TatNavHorizontal::LeftOne)
        } else if c == 'l' {
            Some(TatNavHorizontal::RightOne)
        } else if c == '0' {
            Some(TatNavHorizontal::Home)
        } else if c == '$' {
            Some(TatNavHorizontal::End)
        } else {
            None
        },
        TatKeyCode::Left => Some(TatNavHorizontal::LeftOne),
        TatKeyCode::Right => Some(TatNavHorizontal::RightOne),
        TatKeyCode::Home => Some(TatNavHorizontal::Home),
        TatKeyCode::End => Some(TatNavHorizontal::End),
        _ => None,
    }
}

/// Whether a key ends the program: CTRL+`q` or CTRL+`c`, in every menu
pub open spec fn is_quit_key(code: TatKeyCode, ctrl_down: bool) -> bool {
    ctrl_down && (code == TatKeyCode::Char('q') || code == TatKeyCode::Char('c'))
}

/// Whether a key asks to copy the selected cell's value: `y`, in the table view
pub open spec fn is_copy_key(code: TatKeyCode, in_table: bool) -> bool {
    in_table && code == TatKeyCode::Char('y')
}

/// The vertical navigation a mouse event asks for (if any)
pub open spec fn mouse_nav(kind: TatMouseEventKind) -> Option<TatNavVertical> {
    match kind {
        TatMouseEventKind::ScrollUp => Some(TatNavVertical::MouseScrollUp),
        TatMouseEventKind::ScrollDown => Some(TatNavVertical::MouseScrollDown),
        TatMouseEventKind::Other => None,
    }
}

impl AppState {
    /// Whether the open number input dialog takes the key (it does in the table view)
    pub open spec fn number_input_takes_key(self) -> bool {
        self.in_table() && self.number_input is Some
    }

    /// Whether the Left or Right arrow key switches the section in focus: in the main menu, with
    /// no pop-up open, while the layer list or the layer information has the focus
    pub open spec fn arrow_switches_section(self, code: TatKeyCode) -> bool {
        &&& code == TatKeyCode::Left || code == TatKeyCode::Right
        &&& self.current_menu == TatMenu::MainMenu
        &&& !self.popup_open()
        &&& self.focused_section != TatLayerSelectFocusedBlock::PreviewTable
    }

    /// Whether handling a key stays within what the widgets can take: a number accepted in the
    /// number input selects a visible row, navigation stays in range, copying can read the
    /// value, and the table that Enter opens or the value it shows can be had
    pub open spec fn key_in_range(self, code: TatKeyCode, ctrl_down: bool) -> bool {
        if self.number_input_takes_key() {
            match self.number_input->0.key_result(code) {
                TatNumberInputResult::Accept(num) => self.table.nav_v_in_range(
                    TatNavVertical::Specific(num),
                ),
                _ => true,
            }
        } else if code == TatKeyCode::Char('q') || code == TatKeyCode::Esc {
            true
        } else if nav_v_key(code, ctrl_down) is Some {
            self.delegate_v_in_range(nav_v_key(code, ctrl_down)->0)
        } else if self.arrow_switches_section(code) {
            true
        } else if nav_h_key(code) is Some {
            self.delegate_h_in_range()
        } else if is_copy_key(code, self.in_table()) {
            self.copy_in_range()
        } else if code == TatKeyCode::Enter {
            match self.current_menu {
                TatMenu::MainMenu => self.enter_opens_table() ==> self.full_table_in_range(),
                TatMenu::TableView => self.table.selected_value_in_range(),
            }
        } else {
            true
        }
    }

    /// The state and the request after a key that the number input does not take and that does
    /// not ask to copy, before the clipboard feedback is dismissed
    pub open spec fn key_effect(self, code: TatKeyCode, ctrl_down: bool) -> (AppState, AppRequest) {
        if is_quit_key(code, ctrl_down) {
            (AppState { quit: true, ..self }, AppRequest::Nothing)
        } else if code == TatKeyCode::Char('q') || code == TatKeyCode::Esc {
            (self.after_previous_menu(), AppRequest::Nothing)
        } else if nav_v_key(code, ctrl_down) is Some {
            (self.after_delegate_v(nav_v_key(code, ctrl_down)->0), AppRequest::Nothing)
        } else if self.arrow_switches_section(code) {
            (self.after_cycle(code == TatKeyCode::Left), AppRequest::Nothing)
        } else if nav_h_key(code) is Some {
            (self.after_delegate_h(nav_h_key(code)->0), AppRequest::Nothing)
        } else if code == TatKeyCode::Char('L') {
            (self, if self.popup_open() {
                AppRequest::Nothing
            } else {
                AppRequest::ShowGdalLog
            })
        } else if code == TatKeyCode::Char('D') {
            (self, if self.popup_open() {
                AppRequest::Nothing
            } else {
                AppRequest::ShowDebugLog
            })
        } else if code == TatKeyCode::Char('?') {
            (if self.popup_open() {
                self
            } else {
                self.after_show_help()
            }, AppRequest::Nothing)
        } else if code == TatKeyCode::Enter {
            (match self.current_menu {
                TatMenu::MainMenu => if self.enter_opens_table() {
                    self.after_open_table()
                } else {
                    self
                },
                TatMenu::TableView => self.after_full_value_popup(),
            }, AppRequest::Nothing)
        } else if code == TatKeyCode::Tab || code == TatKeyCode::BackTab {
            (if self.current_menu == TatMenu::MainMenu && !self.popup_open() {
                self.after_cycle(code == TatKeyCode::BackTab)
            } else {
                self
            }, AppRequest::Nothing)
        } else if code == TatKeyCode::Char(':') {
            (if self.in_table() {
                AppState {
                    number_input: Some(NumberInputState { string: Seq::empty(), cursor_pos: 0 }),
                    ..self
                }
            } else {
                self
            }, AppRequest::Nothing)
        } else {
            (self, AppRequest::Nothing)
        }
    }

    /// The state and the request after a key press. In the table view an open number input
    /// takes every key: closing it, jumping to the accepted feature, or editing it. Otherwise
    /// the key is handled by the program and any clipboard feedback is dismissed, except after
    /// a key that asks to copy.
    pub open spec fn after_key(self, code: TatKeyCode, ctrl_down: bool) -> (AppState, AppRequest) {
        if self.number_input_takes_key() {
            let n = self.number_input->0;
            match n.key_result(code) {
                TatNumberInputResult::Close => (
                    AppState { number_input: None, ..self },
                    AppRequest::Nothing,
                ),
                TatNumberInputResult::Accept(num) => (
                    AppState {
                        number_input: None,
                        table: self.table.nav_v_result(TatNavVertical::Specific(num)),
                        ..self
                    },
                    AppRequest::Nothing,
                ),
                _ => (
                    AppState { number_input: Some(n.after_key(code, ctrl_down)), ..self },
                    AppRequest::Nothing,
                ),
            }
        } else if is_copy_key(code, self.in_table()) {
            let (s, value) = self.after_copy();
            (s, match value {
                Some(v) => AppRequest::CopyToClipboard(v),
                None => AppRequest::Nothing,
            })
        } else {
            let (s, request) = self.key_effect(code, ctrl_down);
            (AppState { clipboard_feedback: None, ..s }, request)
        }
    }

    /// Whether a mouse event's navigation stays in range
    pub open spec fn mouse_in_range(self, kind: TatMouseEventKind) -> bool {
        match mouse_nav(kind) {
            Some(conf) => self.delegate_v_in_range(conf),
            None => true,
        }
    }

    /// The state after a mouse event: scrolling navigates like the keys do
    pub open spec fn after_mouse(self, kind: TatMouseEventKind) -> AppState {
        match mouse_nav(kind) {
            Some(conf) => self.after_delegate_v(conf),
            None => self,
        }
    }
}

/// Returns the vertical navigation a key asks for (if any)
fn nav_v_key_of(code: TatKeyCode, ctrl_down: bool) -> (r: Option<TatNavVertical>)
    ensures
        r == nav_v_key(code, ctrl_down),
{
    match code {
        TatKeyCode::Char('g') => Some(TatNavVertical::First),
        TatKeyCode::Char('G') => Some(TatNavVertical::Last),
        TatKeyCode::Char('k') | TatKeyCode::Up => Some(TatNavVertical::UpOne),
        TatKeyCode::Char('j') | TatKeyCode::Down => Some(TatNavVertical::DownOne),
        TatKeyCode::Char('d') if ctrl_down => Some(TatNavVertical::DownHalfParagraph),
        TatKeyCode::Char('u') if ctrl_down => Some(TatNavVertical::UpHalfParagraph),
        TatKeyCode::Char('f') if ctrl_down => Some(TatNavVertical::DownParagraph),
        TatKeyCode::Char('b') if ctrl_down => Some(TatNavVertical::UpParagraph),
        TatKeyCode::PageDown => Some(TatNavVertical::DownParagraph),
        TatKeyCode::PageUp => Some(TatNavVertical::UpParagraph),
        _ => None,
    }
}

/// Returns the horizontal navigation a key asks for (if any)
fn nav_h_key_of(code: TatKeyCode) -> (r: Option<TatNavHorizontal>)
    ensures
        r == nav_h_key(code),
{
    match code {
        TatKeyCode::Char('h') | TatKeyCode::Left => Some(TatNavHorizontal::LeftOne),
        TatKeyCode::Char('l') | TatKeyCode::Right => Some(TatNavHorizontal::RightOne),
        TatKeyCode::Char('0') | TatKeyCode::Home => Some(TatNavHorizontal::Home),
        TatKeyCode::Char('$') | TatKeyCode::End => Some(TatNavHorizontal::End),
        _ => None,
    }
}

/// Returns the vertical navigation a mouse event asks for (if any)
fn mouse_nav_of(kind: TatMouseEventKind) -> (r: Option<TatNavVertical>)
    ensures
        r == mouse_nav(kind),
{
    match kind {
        TatMouseEventKind::ScrollUp => Some(TatNavVertical::MouseScrollUp),
        TatMouseEventKind::ScrollDown => Some(TatNavVertical::MouseScrollDown),
        TatMouseEventKind::Other => None,
    }
}

impl TatApp {
    /// Delegates a vertical navigation event to the active widget
    pub fn delegate_nav_v(&mut self, conf: TatNavVertical)
        requires
            old(self)@.wf(),
            old(self)@.delegate_v_in_range(conf),
        ensures
            final(self)@ == old(self)@.after_delegate_v(conf),
            final(self)@.wf(),
    {
        match self.modal_popup.take() {
            Some(mut pop) => {
                pop.nav_v(conf);
                self.modal_popup = Some(pop);
                return ;
            },
            None => {},
        }
        match self.current_menu {
            TatMenu::MainMenu => {
                match self.focused_section {
                    TatLayerSelectFocusedBlock::LayerList => {
                        self.layerlist.nav(conf);
                        match self.layerlist.layer_index() {
                            Some(lyr_i) => self.table.set_layer_index(lyr_i),
                            None => {},
                        }
                        self.table.reset();
                    },
                    TatLayerSelectFocusedBlock::LayerInfo => {
                        self.layerlist.nav_current_info_v(conf);
                    },
                    TatLayerSelectFocusedBlock::PreviewTable => {
                        self.table.nav_v(conf);
                    },
                }
            },
            TatMenu::TableView => self.table.nav_v(conf),
        }
    }

    /// Delegates a horizontal navigation event to the active widget
    pub fn delegate_nav_h(&mut self, conf: TatNavHorizontal)
        requires
            old(self)@.wf(),
            old(self)@.delegate_h_in_range(),
        ensures
            final(self)@ == old(self)@.after_delegate_h(conf),
            final(self)@.wf(),
    {
        match self.modal_popup.take() {
            Some(mut pop) => {
                pop.nav_h(conf);
                self.modal_popup = Some(pop);
                return ;
            },
            None => {},
        }
        match self.current_menu {
            TatMenu::MainMenu => {
                match self.focused_section {
                    TatLayerSelectFocusedBlock::LayerList => {},
                    TatLayerSelectFocusedBlock::LayerInfo => {
                        self.layerlist.nav_current_info_h(conf);
                    },
                    TatLayerSelectFocusedBlock::PreviewTable => {
                        self.table.nav_h(conf);
                    },
                }
            },
            TatMenu::TableView => self.table.nav_h(conf),
        }
    }

    /// Places the table in the area of the program, as the table view shows it
    pub fn place_full_table(&mut self)
        requires
            old(self)@.wf(),
            old(self)@.full_table_in_range(),
        ensures
            final(self)@ == old(self)@.after_place_full_table(),
            final(self)@.wf(),
    {
        self.table.set_rects(self.full_rects);
    }

    /// Opens the table view menu
    pub fn open_table(&mut self)
        requires
            old(self)@.wf(),
            old(self)@.full_table_in_range(),
        ensures
            final(self)@ == old(self)@.after_open_table(),
            final(self)@.wf(),
    {
        self.place_full_table();
        self.current_menu = TatMenu::TableView;
    }

    /// Closes the table view menu
    pub fn close_table(&mut self)
        requires
            old(self)@.wf(),
        ensures
            final(self)@ == (AppState {
                table: old(self)@.table.reset_result(),
                current_menu: TatMenu::MainMenu,
                ..old(self)@
            }),
            final(self)@.wf(),
    {
        self.table.reset();
        self.current_menu = TatMenu::MainMenu;
    }

    /// Sets currently selected layer's index
    pub fn set_layer_index(&mut self, idx: usize)
        requires
            old(self)@.wf(),
        ensures
            final(self)@ == (AppState {
                table: TableModel { layer_index: idx, ..old(self)@.table },
                ..old(self)@
            }),
            final(self)@.wf(),
    {
        self.table.set_layer_index(idx);
    }

    /// Sets the area of the program, which the table view fills, and lays out the full table's
    /// areas in it
    pub fn set_table_area(&mut self, area: TatRect)
        ensures
            final(self)@ == (AppState { table_area: area, full_rects: final(self)@.full_rects, ..old(self)@ }),
            table_rects_fit(area, false, final(self)@.full_rects),
    {
        self.table_area = area;
        match table_rects(area, false) {
            Some(rects) => {
                self.full_rects = rects;
            },
            None => {},
        }
    }

    /// Places the preview table in its area of the main menu: the area becomes the table's area
    /// and the preview layout's split of it gives the table its areas. Returns whether it was
    /// placed; it is not, and nothing changes, where the preview table's part of the area is
    /// already as high as an area can be, or where the table could not select a visible row in
    /// its new areas.
    pub fn place_preview_table(&mut self, area: TatRect) -> (placed: bool)
        requires
            old(self)@.wf(),
        ensures
            final(self)@.wf(),
            !placed ==> final(self)@ == old(self)@,
            placed ==> exists|rects: TableRects| {
                &&& #[trigger] table_rects_fit(area, true, rects)
                &&& old(self)@.table.set_rects_in_range(rects)
                &&& final(self)@ == old(self)@.after_place_preview_table(area, rects, final(self)@.full_rects)
            },
            placed ==> table_rects_fit(area, false, final(self)@.full_rects),
            (!old(self)@.table.has_layer() || old(self)@.table.table_rect.spec_is_empty())
                && area.height < u16::MAX ==> placed,
            !placed ==> exists|rows: Seq<TatRect>, cols: Seq<TatRect>|
                #[trigger] table_split(area, true, rows, cols) && (!table_parts_in_range(cols, true)
                    || !old(self)@.table.set_rects_in_range(table_rects_of(rows, cols, true))),
    {
        let opt = table_rects(area, true);
        proof {
            let (rows, cols) = choose|rows: Seq<TatRect>, cols: Seq<TatRect>|
                #[trigger] table_split(area, true, rows, cols) && opt == (if table_parts_in_range(
                    cols,
                    true,
                ) {
                    Some(table_rects_of(rows, cols, true))
                } else {
                    None
                });
            assert(part_fits(area, TatDirection::Vertical, rows[1]));
            assert(part_fits(rows[1], TatDirection::Horizontal, cols[1]));
        }
        let rects = match opt {
            Some(rects) => rects,
            None => return false,
        };
        if !self.table.set_rects_allowed(rects) {
            return false;
        }
        self.set_table_area(area);
        self.table.set_rects(rects);
        proof {
            assert(table_rects_fit(area, true, rects));
        }
        true
    }

    /// Tells the open pop-up (if any) how many rows and columns it is shown in
    pub fn set_popup_visible_area(&mut self, rows: usize, cols: usize)
        ensures
            final(self)@ == (AppState {
                modal_popup: match old(self)@.modal_popup {
                    Some(p) => Some(ParagraphState { visible_rows: rows, visible_cols: cols, ..p }),
                    None => None,
                },
                ..old(self)@
            }),
    {
        match self.modal_popup.take() {
            Some(mut pop) => {
                pop.set_visible_rows(rows);
                pop.set_visible_cols(cols);
                self.modal_popup = Some(pop);
            },
            None => {},
        }
    }

    /// Tells the information about the selected layer how many rows and columns it is shown in
    pub fn set_layer_info_visible_area(&mut self, rows: usize, cols: usize)
        ensures
            final(self)@ == (AppState {
                layerlist: if old(self)@.layerlist.has_current_info() {
                    old(self)@.layerlist.with_current_info(
                        ParagraphState {
                            visible_rows: rows,
                            visible_cols: cols,
                            ..old(self)@.layerlist.current_info()
                        },
                    )
                } else {
                    old(self)@.layerlist
                },
                ..old(self)@
            }),
    {
        self.layerlist.set_current_info_visible_area(rows, cols);
    }

    /// Fits the layer list into an area of the given height
    pub fn fit_layer_list(&mut self, height: u16)
        ensures
            final(self)@ == (AppState {
                layerlist: LayerListState {
                    available_rows: if height >= 2 {
                        (height - 2) as usize
                    } else {
                        0
                    },
                    ..old(self)@.layerlist
                },
                ..old(self)@
            }),
    {
        self.layerlist.fit_to_height(height);
    }

    /// Handles incoming mouse events and delegates to other widgets
    pub fn handle_mouse(&mut self, kind: TatMouseEventKind)
        requires
            old(self)@.wf(),
            old(self)@.mouse_in_range(kind),
        ensures
            final(self)@ == old(self)@.after_mouse(kind),
            final(self)@.wf(),
    {
        match mouse_nav_of(kind) {
            Some(conf) => self.delegate_nav_v(conf),
            None => {},
        }
    }

    /// Handles a response of the dataset: layer descriptions go to the layer list (whose first
    /// layer is selected when nothing valid is), the dataset's description is kept, layers and
    /// their feature ids go to the table
    pub fn handle_dataset(&mut self, response: DatasetResponse)
        requires
            old(self)@.wf(),
            old(self)@.dataset_in_range(&response),
        ensures
            final(self)@.wf(),
            final(self)@ == old(self)@.after_dataset(response),
    {
        match response {
            DatasetResponse::LayerInfos(layer_info) => {
                self.layerlist.set_infos(layer_info);
                if self.layerlist.current_layer_info_paragraph().is_none() {
                    self.layerlist.nav(TatNavVertical::First);
                }
            },
            DatasetResponse::DatasetInfo(info) => {
                self.dataset_info_text = info;
            },
            DatasetResponse::Layer(layer) => {
                self.table.add_layer(layer);
            },
            DatasetResponse::FidCache(i, cache) => {
                self.table.add_fid_cache(i, cache);
            },
            DatasetResponse::Feature(i, feature) => {
                self.table.add_feature(i, feature);
            },
            _ => {},
        }
    }

    /// Handles incoming key events and delegates to other widgets. What the surroundings are
    /// asked to do is returned.
    pub fn handle_key(&mut self, code: TatKeyCode, ctrl_down: bool) -> (action: TatAppAction)
        requires
            old(self)@.wf(),
            old(self)@.key_in_range(code, ctrl_down),
        ensures
            (final(self)@, action@) == old(self)@.after_key(code, ctrl_down),
            final(self)@.wf(),
    {
        let in_table = self.current_menu == TatMenu::TableView;
        if in_table && self.number_input.is_some() {
            let mut number_input = match self.number_input.take() {
                Some(n) => n,
                None => TatNumberInput::new(),
            };
            proof {
                law_cursor_stays_within_digits(number_input@, code, ctrl_down);
            }
            let res = number_input.key_press(code, ctrl_down);
            match res {
                TatNumberInputResult::Close => {},
                TatNumberInputResult::Accept(num) => {
                    self.table.nav_v(TatNavVertical::Specific(num));
                },
                _ => {
                    self.number_input = Some(number_input);
                },
            }
            return TatAppAction::Nothing;
        }
        let copy_key = in_table && code == TatKeyCode::Char('y');
        if copy_key {
            return match self.copy_table_value_to_clipboard() {
                Some(v) => TatAppAction::CopyToClipboard(v),
                None => TatAppAction::Nothing,
            };
        }
        let action = self.handle_program_key(code, ctrl_down);
        if self.clipboard_feedback.is_some() {
            self.clipboard_feedback = None;
        }
        action
    }

    /// Handles a key which the program itself handles
    fn handle_program_key(&mut self, code: TatKeyCode, ctrl_down: bool) -> (action: TatAppAction)
        requires
            old(self)@.wf(),
            !old(self)@.number_input_takes_key(),
            !is_copy_key(code, old(self)@.in_table()),
            old(self)@.key_in_range(code, ctrl_down),
        ensures
            (final(self)@, action@) == old(self)@.key_effect(code, ctrl_down),
            final(self)@.wf(),
    {
        if ctrl_down && (code == TatKeyCode::Char('q') || code == TatKeyCode::Char('c')) {
            self.close();
            return TatAppAction::Nothing;
        }
        if code == TatKeyCode::Char('q') || code == TatKeyCode::Esc {
            self.previous_menu();
            return TatAppAction::Nothing;
        }
        match nav_v_key_of(code, ctrl_down) {
            Some(conf) => {
                self.delegate_nav_v(conf);
                return TatAppAction::Nothing;
            },
            None => {},
        }
        let popup_open = self.modal_popup.is_some();
        if (code == TatKeyCode::Left || code == TatKeyCode::Right) && self.current_menu
            == TatMenu::MainMenu && !popup_open && self.focused_section
            != TatLayerSelectFocusedBlock::PreviewTable {
            self.cycle_section_selection(code == TatKeyCode::Left);
            return TatAppAction::Nothing;
        }
        match nav_h_key_of(code) {
            Some(conf) => {
                self.delegate_nav_h(conf);
                return TatAppAction::Nothing;
            },
            None => {},
        }
        if code == TatKeyCode::Char('L') {
            if popup_open {
                TatAppAction::Nothing
            } else {
                TatAppAction::ShowGdalLog
            }
        } else if code == TatKeyCode::Char('D') {
            if popup_open {
                TatAppAction::Nothing
            } else {
                TatAppAction::ShowDebugLog
            }
        } else if code == TatKeyCode::Char('?') {
            if !popup_open {
                self.show_help();
            }
            TatAppAction::Nothing
        } else if code == TatKeyCode::Enter {
            match self.current_menu {
                TatMenu::MainMenu => {
                    let in_preview_table = self.focused_section
                        == TatLayerSelectFocusedBlock::PreviewTable;
                    let in_layer_list = self.focused_section
                        == TatLayerSelectFocusedBlock::LayerList;
                    if !popup_open && (in_preview_table || in_layer_list
                        && self.layerlist.layer_index().is_some()) {
                        self.open_table();
                    }
                },
                TatMenu::TableView => {
                    self.show_full_value_popup();
                },
            }
            TatAppAction::Nothing
        } else if code == TatKeyCode::Tab || code == TatKeyCode::BackTab {
            if self.current_menu == TatMenu::MainMenu && !popup_open {
                self.cycle_section_selection(code == TatKeyCode::BackTab);
            }
            TatAppAction::Nothing
        } else if code == TatKeyCode::Char(':') {
            if self.current_menu == TatMenu::TableView {
                let number_input = TatNumberInput::new();
                proof {
                    assert(number_input@.string =~= Seq::<char>::empty());
                    assert(number_input@ == NumberInputState {
                        string: Seq::<char>::empty(),
                        cursor_pos: 0,
                    });
                }
                self.number_input = Some(number_input);
            }
            TatAppAction::Nothing
        } else {
            TatAppAction::Nothing
        }
    }
}

impl TatApp {
    /// Returns whether vertical navigation can go to the active widget, which `delegate_nav_v`
    /// needs
    pub fn delegate_v_allowed(&self, conf: TatNavVertical) -> (b: bool)
        requires
            self@.wf(),
        ensures
            b == self@.delegate_v_in_range(conf),
    {
        match &self.modal_popup {
            Some(p) => return p.nav_v_allowed(conf),
            None => {},
        }
        match self.current_menu {
            TatMenu::MainMenu => match self.focused_section {
                TatLayerSelectFocusedBlock::LayerList => match conf {
                    TatNavVertical::Last => self.layerlist.layer_infos().len() > 0,
                    _ => true,
                },
                TatLayerSelectFocusedBlock::LayerInfo => {
                    match self.layerlist.current_layer_info_paragraph() {
                        Some(p) => p.nav_v_allowed(conf),
                        None => true,
                    }
                },
                TatLayerSelectFocusedBlock::PreviewTable => self.table.nav_v_allowed(conf),
            },
            TatMenu::TableView => self.table.nav_v_allowed(conf),
        }
    }

    /// Returns whether horizontal navigation can go to the active widget, which
    /// `delegate_nav_h` needs
    pub fn delegate_h_allowed(&self) -> (b: bool)
        requires
            self@.wf(),
        ensures
            b == self@.delegate_h_in_range(),
    {
        if self.modal_popup.is_some() {
            return true;
        }
        match self.current_menu {
            TatMenu::MainMenu => match self.focused_section {
                TatLayerSelectFocusedBlock::PreviewTable => self.table.column_allowed(),
                _ => true,
            },
            TatMenu::TableView => self.table.column_allowed(),
        }
    }

    /// Returns whether the table can be placed in the area of the program, which
    /// `place_full_table` and `open_table` need
    pub fn full_table_allowed(&self) -> (b: bool)
        requires
            self@.wf(),
        ensures
            b == self@.full_table_in_range(),
    {
        self.table.set_rects_allowed(self.full_rects)
    }

    /// Returns whether a key press can be handled, which `handle_key` needs
    pub fn key_allowed(&self, code: TatKeyCode, ctrl_down: bool) -> (b: bool)
        requires
            self@.wf(),
        ensures
            b == self@.key_in_range(code, ctrl_down),
    {
        let in_table = self.current_menu == TatMenu::TableView;
        if in_table {
            match &self.number_input {
                Some(n) => {
                    return match n.result_of(code) {
                        TatNumberInputResult::Accept(num) => self.table.nav_v_allowed(
                            TatNavVertical::Specific(num),
                        ),
                        _ => true,
                    };
                },
                None => {},
            }
        }
        if code == TatKeyCode::Char('q') || code == TatKeyCode::Esc {
            return true;
        }
        match nav_v_key_of(code, ctrl_down) {
            Some(conf) => return self.delegate_v_allowed(conf),
            None => {},
        }
        if (code == TatKeyCode::Left || code == TatKeyCode::Right) && !in_table
            && self.modal_popup.is_none() && self.focused_section
            != TatLayerSelectFocusedBlock::PreviewTable {
            return true;
        }
        if nav_h_key_of(code).is_some() {
            return self.delegate_h_allowed();
        }
        if in_table && code == TatKeyCode::Char('y') {
            return !self.has_clipboard || self.table.selected_value_allowed();
        }
        if code == TatKeyCode::Enter {
            return match self.current_menu {
                TatMenu::MainMenu => {
                    let opens = self.modal_popup.is_none() && (self.focused_section
                        == TatLayerSelectFocusedBlock::PreviewTable || (self.focused_section
                        == TatLayerSelectFocusedBlock::LayerList
                        && self.layerlist.layer_index().is_some()));
                    !opens || self.full_table_allowed()
                },
                TatMenu::TableView => self.table.selected_value_allowed(),
            };
        }
        true
    }

    /// Returns whether a mouse event can be handled, which `handle_mouse` needs
    pub fn mouse_allowed(&self, kind: TatMouseEventKind) -> (b: bool)
        requires
            self@.wf(),
        ensures
            b == self@.mouse_in_range(kind),
    {
        match mouse_nav_of(kind) {
            Some(conf) => self.delegate_v_allowed(conf),
            None => true,
        }
    }
}

/// A key event as the program receives it: the key, whether CTRL was held, and whether the key
/// was pressed (rather than released or repeated)
#[derive(Clone, Copy, Debug, PartialEq, Eq, Structural)]
pub struct TatKeyEvent {
    pub code: TatKeyCode,
    pub ctrl_down: bool,
    pub pressed: bool,
}

/// The events the program reacts to: keys, the mouse and responses of the dataset
pub enum TatEvent {
    Keyboard(TatKeyEvent),
    Mouse(TatMouseEventKind),
    Dataset(DatasetResponse),
}

impl AppState {
    /// The state after a response of the dataset: layer descriptions replace the list's (whose
    /// first position is selected when the selection is on no layer), the dataset's description
    /// is kept, a layer is added to the table and feature ids are stored with their layer
    pub open spec fn after_dataset(self, response: DatasetResponse) -> AppState {
        match response {
            DatasetResponse::LayerInfos(infos) => {
                let list = LayerListState {
                    names: infos@.map_values(|info: (String, TatNavigableParagraph)| info.0@),
                    infos: infos@.map_values(|info: (String, TatNavigableParagraph)| info.1@),
                    ..self.layerlist
                };
                AppState {
                    layerlist: if list.has_current_info() {
                        list
                    } else {
                        list.after_nav(TatNavVertical::First)
                    },
                    ..self
                }
            },
            DatasetResponse::DatasetInfo(info) => AppState { dataset_info_text: info@, ..self },
            DatasetResponse::Layer(layer) => AppState {
                table: TableModel { layers: self.table.layers.push(layer@), ..self.table },
                ..self
            },
            DatasetResponse::FidCache(i, cache) => AppState {
                table: TableModel {
                    layers: self.table.layers.update(
                        i as int,
                        LayerState { fid_cache: cache@, ..self.table.layers[i as int] },
                    ),
                    ..self.table
                },
                ..self
            },
            DatasetResponse::Feature(i, feature) => AppState {
                table: TableModel {
                    layers: self.table.layers.update(
                        i as int,
                        self.table.layers[i as int].add_feature_result(feature@),
                    ),
                    ..self.table
                },
                ..self
            },
            _ => self,
        }
    }

    /// Whether an event can be handled: a pressed key or a mouse event within range, and feature
    /// ids for a layer that the table has
    pub open spec fn event_in_range(self, event: TatEvent) -> bool {
        match event {
            TatEvent::Keyboard(key) => key.pressed ==> self.key_in_range(key.code, key.ctrl_down),
            TatEvent::Mouse(kind) => self.mouse_in_range(kind),
            TatEvent::Dataset(response) => self.dataset_in_range(&response),
        }
    }

    /// Whether a response of the dataset can be handled: feature ids and features come for a
    /// layer that the table has
    pub open spec fn dataset_in_range(self, response: &DatasetResponse) -> bool {
        match *response {
            DatasetResponse::FidCache(i, _) => i < self.table.layers.len(),
            DatasetResponse::Feature(i, _) => i < self.table.layers.len(),
            _ => true,
        }
    }
}

impl TatApp {
    /// Handles one event of the main loop. Keys other than presses are ignored (`None`, nothing
    /// to redraw); otherwise the event is handled and what the surroundings are asked to do is
    /// returned.
    pub fn handle_event(&mut self, event: TatEvent) -> (r: Option<TatAppAction>)
        requires
            old(self)@.wf(),
            old(self)@.event_in_range(event),
        ensures
            final(self)@.wf(),
            match event {
                TatEvent::Keyboard(key) => if key.pressed {
                    r matches Some(action) && (final(self)@, action@) == old(self)@.after_key(
                        key.code,
                        key.ctrl_down,
                    )
                } else {
                    r is None && final(self)@ == old(self)@
                },
                TatEvent::Mouse(kind) => r == Some(TatAppAction::Nothing) && final(self)@ == old(
                    self,
                )@.after_mouse(kind),
                TatEvent::Dataset(response) => r == Some(TatAppAction::Nothing) && final(self)@
                    == old(self)@.after_dataset(response),
            },
    {
        match event {
            TatEvent::Keyboard(key) => if key.pressed {
                Some(self.handle_key(key.code, key.ctrl_down))
            } else {
                None
            },
            TatEvent::Mouse(kind) => {
                self.handle_mouse(kind);
                Some(TatAppAction::Nothing)
            },
            TatEvent::Dataset(response) => {
                self.handle_dataset(response);
                Some(TatAppAction::Nothing)
            },
        }
    }

    /// Returns whether an event can be handled, which `handle_event` needs
    pub fn event_allowed(&self, event: &TatEvent) -> (b: bool)
        requires
            self@.wf(),
        ensures
            b == self@.event_in_range(*event),
    {
        match event {
            TatEvent::Keyboard(key) => !key.pressed || self.key_allowed(key.code, key.ctrl_down),
            TatEvent::Mouse(kind) => self.mouse_allowed(*kind),
            TatEvent::Dataset(response) => match response {
                DatasetResponse::FidCache(i, _) => *i < self.table.layers().len(),
                DatasetResponse::Feature(i, _) => *i < self.table.layers().len(),
                _ => true,
            },
        }
    }
}

/// Opening the help and going back leaves the program as it was.
pub proof fn law_help_then_back_restores(s: AppState)
    requires
        s.modal_popup is None,
    ensures
        s.after_show_help().after_previous_menu() == s,
{
}

/// Moving the focus to the next section of the main menu and back leaves it where it was, unless
/// it was on the last section; moving it back and forth does the same unless it was on the first.
pub proof fn law_cycle_there_and_back(s: AppState)
    ensures
        s.focused_section != TatLayerSelectFocusedBlock::PreviewTable ==> s.after_cycle(
            false,
        ).after_cycle(true) == s,
        s.focused_section != TatLayerSelectFocusedBlock::LayerList ==> s.after_cycle(
            true,
        ).after_cycle(false) == s,
{
}

/// In the main menu with no pop-up open, the Right arrow moves the focus from the layer list to
/// the layer information and the Left arrow moves it back, as Tab and SHIFT+Tab do.
pub proof fn law_arrows_switch_sections(s: AppState, ctrl_down: bool)
    requires
        s.current_menu == TatMenu::MainMenu,
        s.modal_popup is None,
    ensures
        s.focused_section == TatLayerSelectFocusedBlock::LayerList ==> s.after_key(
            TatKeyCode::Right,
            ctrl_down,
        ).0.focused_section == TatLayerSelectFocusedBlock::LayerInfo,
        s.focused_section == TatLayerSelectFocusedBlock::LayerInfo ==> s.after_key(
            TatKeyCode::Left,
            ctrl_down,
        ).0.focused_section == TatLayerSelectFocusedBlock::LayerList,
        s.after_key(TatKeyCode::Right, ctrl_down).0.focused_section == s.after_key(
            TatKeyCode::Tab,
            ctrl_down,
        ).0.focused_section || s.focused_section == TatLayerSelectFocusedBlock::PreviewTable,
{
}

/// In the table view, opening the number input with `:` and closing it with `q` leaves the
/// program as it was, with any clipboard feedback dismissed.
pub proof fn law_number_input_open_then_close(s: AppState)
    requires
        s.in_table(),
        s.number_input is None,
    ensures
        s.after_key(TatKeyCode::Char(':'), false).0.after_key(TatKeyCode::Char('q'), false).0 == (
        AppState { clipboard_feedback: None, ..s }),
{
}

/// Any key that the number input does not take and that does not ask to copy dismisses the
/// clipboard feedback.
pub proof fn law_key_dismisses_feedback(s: AppState, code: TatKeyCode, ctrl_down: bool)
    requires
        !s.number_input_takes_key(),
        !is_copy_key(code, s.in_table()),
    ensures
        s.after_key(code, ctrl_down).0.clipboard_feedback is None,
{
}

/// CTRL+`q` and CTRL+`c` end the program wherever it is, unless the number input takes the key.
pub proof fn law_quit_keys(s: AppState)
    requires
        !s.number_input_takes_key(),
    ensures
        s.after_key(TatKeyCode::Char('q'), true).0.quit,
        s.after_key(TatKeyCode::Char('c'), true).0.quit,
{
}

/// Going back (`q` or Esc) closes an open pop-up and nothing else; in the main menu, with nothing
/// open, it ends the program; in the table view it returns to the main menu with the table reset.
pub proof fn law_back_key(s: AppState, code: TatKeyCode)
    requires
        !s.number_input_takes_key(),
        code == TatKeyCode::Char('q') || code == TatKeyCode::Esc,
    ensures
        s.modal_popup is Some ==> s.after_key(code, false).0 == (AppState {
            modal_popup: None,
            clipboard_feedback: None,
            ..s
        }),
        s.modal_popup is None && s.clipboard_feedback is None && s.current_menu
            == TatMenu::MainMenu ==> s.after_key(code, false).0.quit,
        s.modal_popup is None && s.clipboard_feedback is None && s.current_menu
            == TatMenu::TableView ==> s.after_key(code, false).0 == (AppState {
            current_menu: TatMenu::MainMenu,
            table: s.table.reset_result(),
            ..s
        }),
{
}


/// The keys do what the help texts bind them to. The vi keys agree with the arrow keys, with or
/// without CTRL: `k` moves up one row like Up, `j` down one like Down, `h` and `l` left and right
/// like the arrows, and handling either key of a pair does the same thing; `g` and `G` go to the
/// first and last row, PageDown / CTRL+F and PageUp / CTRL+B move by a page, CTRL+D and CTRL+U by
/// half a page, `0` / Home and `$` / End to the first and last column.
pub proof fn law_vi_keys_match_arrows(s: AppState, ctrl_down: bool)
    ensures
        nav_v_key(TatKeyCode::Up, ctrl_down) == Some(TatNavVertical::UpOne),
        nav_v_key(TatKeyCode::Down, ctrl_down) == Some(TatNavVertical::DownOne),
        nav_v_key(TatKeyCode::Char('k'), ctrl_down) == nav_v_key(TatKeyCode::Up, ctrl_down),
        nav_v_key(TatKeyCode::Char('j'), ctrl_down) == nav_v_key(TatKeyCode::Down, ctrl_down),
        nav_v_key(TatKeyCode::Char('g'), ctrl_down) == Some(TatNavVertical::First),
        nav_v_key(TatKeyCode::Char('G'), ctrl_down) == Some(TatNavVertical::Last),
        nav_v_key(TatKeyCode::PageDown, ctrl_down) == Some(TatNavVertical::DownParagraph),
        nav_v_key(TatKeyCode::PageUp, ctrl_down) == Some(TatNavVertical::UpParagraph),
        nav_v_key(TatKeyCode::Char('f'), true) == nav_v_key(TatKeyCode::PageDown, ctrl_down),
        nav_v_key(TatKeyCode::Char('b'), true) == nav_v_key(TatKeyCode::PageUp, ctrl_down),
        nav_v_key(TatKeyCode::Char('d'), true) == Some(TatNavVertical::DownHalfParagraph),
        nav_v_key(TatKeyCode::Char('u'), true) == Some(TatNavVertical::UpHalfParagraph),
        nav_h_key(TatKeyCode::Left) == Some(TatNavHorizontal::LeftOne),
        nav_h_key(TatKeyCode::Right) == Some(TatNavHorizontal::RightOne),
        nav_h_key(TatKeyCode::Char('h')) == nav_h_key(TatKeyCode::Left),
        nav_h_key(TatKeyCode::Char('l')) == nav_h_key(TatKeyCode::Right),
        nav_h_key(TatKeyCode::Char('0')) == Some(TatNavHorizontal::Home),
        nav_h_key(TatKeyCode::Home) == Some(TatNavHorizontal::Home),
        nav_h_key(TatKeyCode::Char('$')) == Some(TatNavHorizontal::End),
        nav_h_key(TatKeyCode::End) == Some(TatNavHorizontal::End),
        !s.number_input_takes_key() ==> s.after_key(TatKeyCode::Char('k'), ctrl_down) == s.after_key(
            TatKeyCode::Up,
            ctrl_down,
        ),
        !s.number_input_takes_key() ==> s.after_key(TatKeyCode::Char('j'), ctrl_down) == s.after_key(
            TatKeyCode::Down,
            ctrl_down,
        ),
{
}

/// In the table view, `j` then `k` returns the selection to the row it started on, away from the
/// bottom of the screen.
pub proof fn law_j_then_k_returns_to_row(s: AppState)
    requires
        s.wf(),
        s.in_table(),
        s.modal_popup is None,
        s.number_input is None,
        s.table.has_layer(),
        s.table.visible_rows() > 0,
        s.table.selection_on_screen(),
        s.table.rel_row() + 1 < s.table.visible_rows(),
        s.table.rel_row() < i16::MAX,
    ensures
        s.after_key(TatKeyCode::Char('j'), false).0.after_key(TatKeyCode::Char('k'), false).0.table.current_row()
            == s.table.current_row(),
{
    law_down_then_up_returns_to_row(s.table);
}

} // verus!
