use vstd::prelude::*;

use crate::layer::{
    feature_values, law_added_feature_is_read_back, FeatureState, LayerState, TatFeature, TatLayer,
    MAX_FEATURE_COUNT,
};
use crate::shared::MISSING_VALUE;
use crate::types::{TatNavHorizontal, TatNavVertical};

verus! {

/// The narrowest a column of the table is drawn
pub const MIN_COLUMN_LENGTH: u16 = 30;

/// A rectangular area of the terminal
#[derive(Clone, Copy, Debug, PartialEq, Eq, Structural)]
pub struct TatRect {
    pub x: u16,
    pub y: u16,
    pub width: u16,
    pub height: u16,
}

impl TatRect {
    /// Constructs a new area
    pub fn new(x: u16, y: u16, width: u16, height: u16) -> (r: Self)
        ensures
            r == (TatRect { x, y, width, height }),
    {
        TatRect { x, y, width, height }
    }

    /// An area without width or height covers nothing
    pub open spec fn spec_is_empty(self) -> bool {
        self.width == 0 || self.height == 0
    }

    /// Returns whether the area covers nothing
    pub fn is_empty(&self) -> (b: bool)
        ensures
            b == self.spec_is_empty(),
    {
        self.width == 0 || self.height == 0
    }
}

impl Default for TatRect {
    fn default() -> (r: Self)
        ensures
            r == (TatRect { x: 0, y: 0, width: 0, height: 0 }),
    {
        TatRect { x: 0, y: 0, width: 0, height: 0 }
    }
}

/// The state of a scrollbar: how long the scrolled content is and where in it the view is
#[derive(Clone, Copy, Debug, PartialEq, Eq, Structural)]
pub struct TatScrollbar {
    pub content_length: usize,
    pub position: usize,
}

/// The areas the table is drawn in: the table itself, the column of feature numbers, the vertical
/// scrollbar and the horizontal scrollbar
pub type TableRects = (TatRect, TatRect, TatRect, TatRect);

/// What the attribute table holds
pub struct TableModel {
    pub selected_row: Option<usize>,
    pub selected_column: Option<usize>,
    pub top_row: u64,
    pub first_column: u64,
    pub v_scroll: TatScrollbar,
    pub h_scroll: TatScrollbar,
    pub layer_index: usize,
    pub layers: Seq<LayerState>,
    pub table_rect: TatRect,
    pub feature_col_rect: TatRect,
    pub v_scroll_area: TatRect,
    pub h_scroll_area: TatRect,
}

/// `i + 1`, staying at the largest `usize`
pub open spec fn usize_saturating_inc(i: usize) -> usize {
    if i == usize::MAX {
        i
    } else {
        (i + 1) as usize
    }
}

/// `i - n`, staying at zero
pub open spec fn saturating_sub(i: int, n: int) -> int {
    if i >= n {
        i - n
    } else {
        0
    }
}

impl TableModel {
    /// The layers are well-formed, the first visible row is a feature number with room below the
    /// largest feature count, and a row and a column are always selected
    pub open spec fn wf(self) -> bool {
        &&& forall|i: int| 0 <= i < self.layers.len() ==> (#[trigger] self.layers[i]).wf()
        &&& 1 <= self.top_row <= MAX_FEATURE_COUNT + 1
        &&& self.first_column <= i32::MAX
        &&& self.selected_row matches Some(r) && r <= u16::MAX
        &&& self.selected_column is Some
    }

    /// Whether the selected layer exists
    pub open spec fn has_layer(self) -> bool {
        self.layer_index < self.layers.len()
    }

    /// The selected layer
    pub open spec fn current_layer(self) -> LayerState {
        self.layers[self.layer_index as int]
    }

    /// The number of features of the selected layer
    pub open spec fn feature_count(self) -> int {
        self.current_layer().feature_count as int
    }

    /// The number of columns of the selected layer
    pub open spec fn field_count(self) -> int {
        self.current_layer().field_count() as int
    }

    /// The selected row among the visible rows
    pub open spec fn rel_row(self) -> int {
        match self.selected_row {
            Some(r) => r as int,
            None => 0,
        }
    }

    /// The selected column among the visible columns
    pub open spec fn rel_col(self) -> int {
        match self.selected_column {
            Some(c) => c as int,
            None => 0,
        }
    }

    /// The number of rows shown: the table's height without its header and borders, and no more
    /// than there are features
    pub open spec fn visible_rows(self) -> int {
        if !self.has_layer() {
            0
        } else {
            let v = if self.table_rect.height >= 4 {
                self.table_rect.height - 4
            } else {
                0
            };
            if v > self.feature_count() {
                self.feature_count()
            } else {
                v
            }
        }
    }

    /// The number of columns shown: all of them when they fit at their narrowest, else as many
    /// narrowest columns as fit
    pub open spec fn visible_columns(self) -> int {
        if !self.has_layer() {
            0
        } else if self.field_count() * MIN_COLUMN_LENGTH < self.table_rect.width {
            self.field_count()
        } else {
            (self.table_rect.width / MIN_COLUMN_LENGTH) as int
        }
    }

    /// The top row from which all remaining rows are visible
    pub open spec fn max_top_row(self) -> int {
        if !self.has_layer() {
            1
        } else {
            self.feature_count() - self.visible_rows() + 1
        }
    }

    /// The last visible row
    pub open spec fn bottom_row(self) -> int {
        self.top_row + self.visible_rows() - 1
    }

    /// Whether every feature is visible
    pub open spec fn all_rows_visible(self) -> bool {
        !self.has_layer() || self.visible_rows() >= self.feature_count()
    }

    /// Whether a row is visible
    pub open spec fn row_visible(self, row: int) -> bool {
        self.top_row <= row <= self.bottom_row()
    }

    /// The number of the selected feature
    pub open spec fn current_row(self) -> int {
        self.top_row + self.rel_row()
    }

    /// The index of the selected column in the layer
    pub open spec fn current_column(self) -> int {
        self.first_column + self.rel_col()
    }

    /// The state after making `row` the top row, kept between the first row and the largest top
    /// row
    pub open spec fn with_top_row(self, row: int) -> TableModel {
        if row == self.top_row {
            self
        } else if self.max_top_row() <= 1 {
            TableModel { top_row: 1, ..self }
        } else if row >= self.max_top_row() {
            TableModel { top_row: self.max_top_row() as u64, ..self }
        } else if row <= 1 {
            TableModel { top_row: 1, ..self }
        } else {
            TableModel { top_row: row as u64, ..self }
        }
    }

    /// The state after making `col` the first visible column, kept between the first column and
    /// the largest first column
    pub open spec fn with_first_column(self, col: int) -> TableModel {
        if !self.has_layer() {
            self
        } else {
            let max_first = self.field_count() - self.visible_columns();
            if col >= max_first {
                TableModel { first_column: max_first as u64, ..self }
            } else if col <= 0 {
                TableModel { first_column: 0, ..self }
            } else {
                TableModel { first_column: col as u64, ..self }
            }
        }
    }

    /// The state with the vertical scrollbar following the top row
    pub open spec fn with_v_scroll_updated(self) -> TableModel {
        if !self.has_layer() {
            self
        } else {
            TableModel {
                v_scroll: TatScrollbar {
                    content_length: (self.feature_count() - self.visible_rows() + 1) as usize,
                    position: self.top_row as usize,
                },
                ..self
            }
        }
    }

    /// The state with the horizontal scrollbar following the first visible column
    pub open spec fn with_h_scroll_updated(self) -> TableModel {
        if !self.has_layer() {
            self
        } else {
            TableModel {
                h_scroll: TatScrollbar {
                    content_length: (self.field_count() - self.visible_columns() + 1) as usize,
                    position: self.first_column as usize,
                },
                ..self
            }
        }
    }

    /// The state with another row selected
    pub open spec fn with_selected_row(self, row: usize) -> TableModel {
        TableModel { selected_row: Some(row), ..self }
    }

    /// The state with another column selected
    pub open spec fn with_selected_column(self, col: usize) -> TableModel {
        TableModel { selected_column: Some(col), ..self }
    }

    /// The state after one horizontal navigation step
    pub open spec fn nav_h_result(self, conf: TatNavHorizontal) -> TableModel {
        if !self.has_layer() || self.visible_columns() <= 0 {
            self
        } else {
            match conf {
                TatNavHorizontal::Home => self.with_first_column(0).with_selected_column(
                    0,
                ).with_h_scroll_updated(),
                TatNavHorizontal::End => self.with_first_column(
                    self.field_count() - self.visible_columns(),
                ).with_selected_column((self.visible_columns() - 1) as usize).with_h_scroll_updated(),
                TatNavHorizontal::RightOne => if self.rel_col() == self.visible_columns() - 1 {
                    if self.current_column() == self.field_count() {
                        self.with_h_scroll_updated()
                    } else {
                        self.with_first_column(self.first_column + 1).with_h_scroll_updated()
                    }
                } else {
                    self.with_selected_column(
                        match self.selected_column {
                            Some(i) => usize_saturating_inc(i),
                            None => 0,
                        },
                    )
                },
                TatNavHorizontal::LeftOne => if self.rel_col() == 0 {
                    if self.first_column == 0 {
                        self.with_h_scroll_updated()
                    } else {
                        self.with_first_column(self.first_column - 1).with_h_scroll_updated()
                    }
                } else {
                    self.with_selected_column(
                        match self.selected_column {
                            Some(i) => saturating_sub(i as int, 1) as usize,
                            None => usize::MAX,
                        },
                    )
                },
            }
        }
    }

    /// The relative row arithmetic of a step up by `amount` rows stays in 16 bits
    pub open spec fn nav_by_in_range(self, amount: int) -> bool {
        amount > 0 || {
            let row = self.rel_row() as u64;
            let abs = -amount;
            i16::MIN <= (row as i16) as int - (abs as i16) as int <= i16::MAX
        }
    }

    /// The state after moving the selection by `amount` rows: within the visible rows the
    /// selection moves, past them the table scrolls
    pub open spec fn nav_by_result(self, amount: int) -> TableModel {
        let row = self.rel_row();
        if amount > 0 {
            if row + amount >= self.visible_rows() {
                self.with_top_row(self.top_row + amount)
            } else {
                self.with_selected_row((row + amount) as usize)
            }
        } else {
            let abs = -amount;
            if (((row as u64) as i16) as int - (abs as i16) as int) < 0 {
                self.with_top_row(self.top_row - abs)
            } else {
                self.with_selected_row(saturating_sub(row, abs) as usize)
            }
        }
    }

    /// The state after jumping to the last feature
    pub open spec fn nav_last_result(self) -> TableModel {
        let jump = if self.all_rows_visible() {
            if self.feature_count() > 0 {
                self.feature_count() - 1
            } else {
                0
            }
        } else {
            self.visible_rows() - 1
        };
        self.with_top_row(self.max_top_row()).with_selected_row(jump as usize)
    }

    /// Jumping to `row` selects a visible row: the row is past the last feature (and the last
    /// feature is chosen), already visible, or visible once it is scrolled to
    pub open spec fn specific_in_range(self, row: int) -> bool {
        ||| row >= self.feature_count()
        ||| self.row_visible(row)
        ||| row - self.rel_row() >= i64::MIN && self.with_top_row(
            row - self.rel_row(),
        ).row_visible(row)
    }

    /// Vertical navigation stays within the arithmetic of the table and selects a visible row
    pub open spec fn nav_v_in_range(self, conf: TatNavVertical) -> bool {
        let vr = self.visible_rows();
        !self.has_layer() || vr <= 0 || match conf {
            TatNavVertical::UpOne => self.nav_by_in_range(-1),
            TatNavVertical::DownHalfParagraph => self.nav_by_in_range(vr / 2),
            TatNavVertical::UpHalfParagraph => self.nav_by_in_range(-(vr / 2)),
            TatNavVertical::UpParagraph => self.nav_by_in_range(-vr),
            TatNavVertical::MouseScrollDown => self.nav_by_in_range(vr / 3),
            TatNavVertical::MouseScrollUp => self.nav_by_in_range(-(vr / 3)),
            TatNavVertical::Specific(row) => self.specific_in_range(row as int),
            _ => true,
        }
    }

    /// The state after one vertical step, before the scrollbar follows
    #[verifier::opaque]
    pub open spec fn nav_v_step(self, conf: TatNavVertical) -> TableModel {
        let vr = self.visible_rows();
        match conf {
            TatNavVertical::First => self.with_top_row(1).with_selected_row(0),
            TatNavVertical::Last => self.nav_last_result(),
            TatNavVertical::DownOne => self.nav_by_result(1),
            TatNavVertical::UpOne => self.nav_by_result(-1),
            TatNavVertical::DownHalfParagraph => self.nav_by_result(vr / 2),
            TatNavVertical::UpHalfParagraph => self.nav_by_result(-(vr / 2)),
            TatNavVertical::DownParagraph => self.nav_by_result(vr),
            TatNavVertical::UpParagraph => self.nav_by_result(-vr),
            TatNavVertical::MouseScrollDown => self.nav_by_result(vr / 3),
            TatNavVertical::MouseScrollUp => self.nav_by_result(-(vr / 3)),
            TatNavVertical::Specific(row) => if row >= self.feature_count() {
                self.nav_last_result()
            } else if self.row_visible(row as int) {
                self.with_selected_row((row - self.top_row) as usize)
            } else {
                let scrolled = self.with_top_row(row - self.rel_row());
                scrolled.with_selected_row((row - scrolled.top_row) as usize)
            },
        }
    }

    /// The state after one vertical navigation step
    pub open spec fn nav_v_result(self, conf: TatNavVertical) -> TableModel {
        if !self.has_layer() || self.visible_rows() <= 0 {
            self
        } else {
            self.nav_v_step(conf).with_v_scroll_updated()
        }
    }

    /// The state right after new areas are stored, before the selected feature is found again
    pub open spec fn with_rects_stored(self, rects: TableRects) -> TableModel {
        let m1 = TableModel {
            table_rect: rects.0,
            feature_col_rect: rects.1,
            v_scroll_area: rects.2,
            h_scroll_area: rects.3,
            ..self
        }.with_v_scroll_updated().with_h_scroll_updated();
        if m1.bottom_row() + m1.top_row >= m1.feature_count() {
            m1.with_top_row(m1.max_top_row())
        } else {
            m1
        }
    }

    /// Whether new areas change anything: the table's area changed and there is a layer to show
    pub open spec fn rects_take_effect(self, rects: TableRects) -> bool {
        self.table_rect != rects.0 && self.has_layer()
    }

    /// The state after the table is given new areas. When the table area changes (and it had
    /// one before), the selected feature is selected again in the new area.
    pub open spec fn set_rects_result(self, rects: TableRects) -> TableModel {
        if !self.rects_take_effect(rects) {
            self
        } else if self.table_rect.spec_is_empty() {
            self.with_rects_stored(rects)
        } else {
            self.with_rects_stored(rects).nav_v_result(
                TatNavVertical::Specific(self.current_row() as i64),
            )
        }
    }

    /// Giving the table new areas selects a visible row
    pub open spec fn set_rects_in_range(self, rects: TableRects) -> bool {
        !self.rects_take_effect(rects) || self.table_rect.spec_is_empty()
            || self.with_rects_stored(rects).nav_v_in_range(
            TatNavVertical::Specific(self.current_row() as i64),
        )
    }

    /// The value of the selected cell: that of the selected feature (at its position in the
    /// fid cache, the row's number less one) at the selected column, if the layer holds one;
    /// there is none without a layer, or at a column past the largest `i32`
    pub open spec fn selected_value(self) -> Option<Seq<char>> {
        if !self.has_layer() || self.current_column() > i32::MAX {
            None
        } else {
            self.current_layer().value_by_row(self.current_row() - 1, self.current_column())
        }
    }

    /// What reading the selected cell's value needs: the selected feature has an entry in the
    /// cache of feature ids, and the selected column is a number
    pub open spec fn selected_value_in_range(self) -> bool {
        &&& self.has_layer() ==> self.current_row() - 1 < self.current_layer().fid_cache.len()
        &&& self.current_column() <= u64::MAX
    }

    /// The names of the visible columns
    pub open spec fn visible_column_names(self) -> Seq<Seq<char>> {
        Seq::new(
            self.visible_columns() as nat,
            |c: int| self.current_layer().field_name(self.first_column + c).unwrap(),
        )
    }

    /// The texts of the cells of the visible row `k` (counted from the top row): the values of
    /// the row's feature at the visible columns, or the missing value where the layer holds none;
    /// a row whose feature has no cached id shows no cells.
    pub open spec fn visible_row_cells(self, k: int) -> Seq<Seq<char>> {
        let pos = self.top_row + k - 1;
        if pos < self.current_layer().fid_cache.len() {
            Seq::new(
                self.visible_columns() as nat,
                |c: int|
                    match self.current_layer().value_by_row(pos, self.first_column + c) {
                        Some(v) => v,
                        None => MISSING_VALUE@,
                    },
            )
        } else {
            Seq::empty()
        }
    }

    /// The ids of the features of the first `n` visible rows whose values the layer does not
    /// hold yet, from the top
    pub open spec fn missing_fids_upto(self, n: int) -> Seq<u64>
        decreases n,
    {
        if n <= 0 {
            Seq::empty()
        } else {
            let prev = self.missing_fids_upto(n - 1);
            let pos = self.top_row + n - 2;
            let cache = self.current_layer().fid_cache;
            if pos < cache.len() && feature_values(self.current_layer().features, cache[pos]) is None {
                prev.push(cache[pos])
            } else {
                prev
            }
        }
    }

    /// The ids of the visible features whose values the layer does not hold yet, from the top
    /// (none without a layer)
    pub open spec fn missing_fids(self) -> Seq<u64> {
        if self.has_layer() {
            self.missing_fids_upto(self.visible_rows())
        } else {
            Seq::empty()
        }
    }

    /// The offset below the column's top of the header of feature numbers, and of the first
    /// number below it: one row further down outside preview
    pub open spec fn feature_column_offset(preview: bool) -> int {
        if preview {
            1
        } else {
            2
        }
    }

    /// Where the column of feature numbers is drawn, when its area is higher than two rows: the
    /// bordered block (in preview a row higher than the area, otherwise without its top two
    /// rows), the header "Feature" (11 cells wide, one row high) and each visible feature's
    /// number with its row
    pub open spec fn feature_column(self, preview: bool) -> Option<(TatRect, TatRect, Seq<(u64, TatRect)>)> {
        let fc = self.feature_col_rect;
        let off = Self::feature_column_offset(preview);
        if fc.height <= 2 {
            None
        } else {
            Some((
                if preview {
                    TatRect { height: (fc.height + 1) as u16, ..fc }
                } else {
                    TatRect { y: (fc.y + 2) as u16, height: (fc.height - 2) as u16, ..fc }
                },
                TatRect { x: fc.x, y: (fc.y + off) as u16, height: 1, width: 11 },
                Seq::new(
                    self.visible_rows() as nat,
                    |k: int|
                        (
                            (self.top_row + k) as u64,
                            TatRect { x: fc.x, y: (fc.y + off + 1 + k) as u16, height: 1, width: 11 },
                        ),
                ),
            ))
        }
    }

    /// What laying out the column of feature numbers needs: its rows stay on the screen
    pub open spec fn feature_column_in_range(self, preview: bool) -> bool {
        let fc = self.feature_col_rect;
        fc.height > 2 ==> {
            &&& fc.y + Self::feature_column_offset(preview) + 1 + self.visible_rows() <= u16::MAX
            &&& preview ==> fc.height + 1 <= u16::MAX
        }
    }

    /// What showing the table's contents needs: every visible column has a name
    pub open spec fn contents_in_range(self) -> bool {
        self.has_layer() ==> self.first_column + self.visible_columns() <= self.field_count()
    }

    /// The state after the table is reset
    pub open spec fn reset_result(self) -> TableModel {
        TableModel {
            top_row: 1,
            first_column: 0,
            selected_column: Some(0),
            selected_row: Some(0),
            table_rect: TatRect { x: 0, y: 0, width: 0, height: 0 },
            ..self
        }
    }
}

impl TableModel {
    /// The selected row is one of the visible rows, and the top row is between the first row and
    /// the largest top row
    pub open spec fn selection_on_screen(self) -> bool {
        self.has_layer() && self.visible_rows() > 0 ==> {
            &&& 0 <= self.rel_row() < self.visible_rows()
            &&& 1 <= self.top_row
            &&& self.top_row <= self.max_top_row() || self.top_row == 1
        }
    }

    /// The selected column is one of the visible columns, and the first visible column leaves no
    /// empty columns on the right
    pub open spec fn column_on_screen(self) -> bool {
        self.has_layer() && self.visible_columns() > 0 ==> {
            &&& 0 <= self.rel_col() < self.visible_columns()
            &&& self.first_column <= self.field_count() - self.visible_columns()
        }
    }
}

proof fn lemma_with_top_row_on_screen(m: TableModel, row: int)
    requires
        m.wf(),
        m.has_layer(),
        m.visible_rows() > 0,
        m.selection_on_screen(),
    ensures
        m.with_top_row(row).selection_on_screen(),
        m.with_top_row(row).wf(),
        m.with_top_row(row).visible_rows() == m.visible_rows(),
        m.with_top_row(row).max_top_row() == m.max_top_row(),
        m.with_top_row(row).rel_row() == m.rel_row(),
{
}

proof fn lemma_nav_by_on_screen(m: TableModel, amount: int)
    requires
        m.wf(),
        m.has_layer(),
        m.visible_rows() > 0,
        m.selection_on_screen(),
        -m.visible_rows() <= amount <= m.visible_rows(),
    ensures
        m.nav_by_result(amount).selection_on_screen(),
        m.nav_by_result(amount).wf(),
{
    let row = m.rel_row();
    if amount > 0 {
        if row + amount >= m.visible_rows() {
            lemma_with_top_row_on_screen(m, m.top_row + amount);
        }
    } else {
        let abs = -amount;
        if (((row as u64) as i16) as int - (abs as i16) as int) < 0 {
            lemma_with_top_row_on_screen(m, m.top_row - abs);
        }
    }
}

proof fn lemma_nav_last_on_screen(m: TableModel)
    requires
        m.wf(),
        m.has_layer(),
        m.visible_rows() > 0,
        m.selection_on_screen(),
    ensures
        m.nav_last_result().selection_on_screen(),
        m.nav_last_result().wf(),
        m.nav_last_result().current_row() == m.feature_count(),
{
    lemma_with_top_row_on_screen(m, m.max_top_row());
}

proof fn lemma_nav_v_step_on_screen(m: TableModel, conf: TatNavVertical)
    requires
        m.wf(),
        m.has_layer(),
        m.visible_rows() > 0,
        m.nav_v_in_range(conf),
        m.selection_on_screen(),
    ensures
        m.nav_v_step(conf).selection_on_screen(),
        m.nav_v_step(conf).wf(),
        m.nav_v_step(conf).layers == m.layers,
        m.nav_v_step(conf).layer_index == m.layer_index,
        m.nav_v_step(conf).table_rect == m.table_rect,
{
    reveal(TableModel::nav_v_step);
    let vr = m.visible_rows();
    match conf {
        TatNavVertical::First => {
            lemma_with_top_row_on_screen(m, 1);
        },
        TatNavVertical::Last => {
            lemma_nav_last_on_screen(m);
        },
        TatNavVertical::DownOne => {
            lemma_nav_by_on_screen(m, 1);
        },
        TatNavVertical::UpOne => {
            lemma_nav_by_on_screen(m, -1);
        },
        TatNavVertical::DownHalfParagraph => {
            lemma_nav_by_on_screen(m, vr / 2);
        },
        TatNavVertical::UpHalfParagraph => {
            lemma_nav_by_on_screen(m, -(vr / 2));
        },
        TatNavVertical::DownParagraph => {
            lemma_nav_by_on_screen(m, vr);
        },
        TatNavVertical::UpParagraph => {
            lemma_nav_by_on_screen(m, -vr);
        },
        TatNavVertical::MouseScrollDown => {
            lemma_nav_by_on_screen(m, vr / 3);
        },
        TatNavVertical::MouseScrollUp => {
            lemma_nav_by_on_screen(m, -(vr / 3));
        },
        TatNavVertical::Specific(row) => {
            if row >= m.feature_count() {
                lemma_nav_last_on_screen(m);
            } else if !m.row_visible(row as int) {
                lemma_with_top_row_on_screen(m, row - m.rel_row());
            }
        },
    }
}

impl TableModel {
    /// The table after the values of a feature are stored in the selected layer
    pub open spec fn with_feature_stored(self, f: FeatureState) -> TableModel {
        TableModel {
            layers: self.layers.update(
                self.layer_index as int,
                self.current_layer().add_feature_result(f),
            ),
            ..self
        }
    }
}

/// The table shows what it was given: once the values of the selected feature are stored in the
/// selected layer, the selected cell holds that feature's value at the selected column (none
/// where the feature has none), and the feature is no longer among those asked for.
pub proof fn law_stored_feature_is_shown(m: TableModel, f: FeatureState)
    requires
        m.has_layer(),
        1 <= m.current_row(),
        m.current_row() - 1 < m.current_layer().fid_cache.len(),
        m.current_layer().fid_cache[m.current_row() - 1] == f.fid,
        m.current_column() <= i32::MAX,
    ensures
        m.with_feature_stored(f).selected_value() == (if m.current_column() < f.values.len()
            && m.current_column() < m.current_layer().field_count() {
            f.values[m.current_column()]
        } else {
            None
        }),
        !m.with_feature_stored(f).missing_fids().contains(f.fid),
{
    let m2 = m.with_feature_stored(f);
    law_added_feature_is_read_back(m.current_layer(), f, f.fid, m.current_column());
    assert(m2.current_layer() == m.current_layer().add_feature_result(f));
    assert(feature_values(m2.current_layer().features, f.fid) == Some(f.values)) by {
        assert(m.current_layer().features.push(f).drop_last() =~= m.current_layer().features);
    }
    lemma_stored_fid_not_missing(m2, f.fid, m2.visible_rows());
}

proof fn lemma_stored_fid_not_missing(m: TableModel, fid: u64, n: int)
    requires
        m.has_layer(),
        feature_values(m.current_layer().features, fid) is Some,
    ensures
        !m.missing_fids_upto(n).contains(fid),
    decreases n,
{
    if n > 0 {
        lemma_stored_fid_not_missing(m, fid, n - 1);
        let prev = m.missing_fids_upto(n - 1);
        assert(forall|x: u64| #[trigger] prev.push(x).contains(fid) ==> prev.contains(fid) || x == fid) by {
            assert forall|x: u64| #[trigger] prev.push(x).contains(fid) implies prev.contains(fid) || x == fid by {
                let j = choose|j: int| 0 <= j < prev.push(x).len() && prev.push(x)[j] == fid;
                if j < prev.len() {
                    assert(prev[j] == fid);
                }
            }
        }
    }
}

/// Vertical navigation keeps the selected row on screen: when it was one of the visible rows
/// before, it is one of them after every step, and the selected feature is one of the layer's
/// features (numbered from 1).
pub proof fn law_nav_v_keeps_selection_on_screen(m: TableModel, conf: TatNavVertical)
    requires
        m.wf(),
        m.nav_v_in_range(conf),
        m.selection_on_screen(),
    ensures
        m.nav_v_result(conf).selection_on_screen(),
        m.has_layer() && m.visible_rows() > 0 ==> 1 <= m.nav_v_result(conf).current_row()
            <= m.feature_count(),
{
    if m.has_layer() && m.visible_rows() > 0 {
        lemma_nav_v_step_on_screen(m, conf);
        let stepped = m.nav_v_step(conf);
        lemma_scrollbar_keeps_rows(stepped);
        lemma_on_screen_row_is_feature(stepped);
    }
}

proof fn lemma_scrollbar_keeps_rows(m: TableModel)
    ensures
        m.with_v_scroll_updated().selection_on_screen() == m.selection_on_screen(),
        m.with_v_scroll_updated().current_row() == m.current_row(),
        m.with_v_scroll_updated().visible_rows() == m.visible_rows(),
        m.with_v_scroll_updated().feature_count() == m.feature_count(),
        m.with_v_scroll_updated().has_layer() == m.has_layer(),
{
}

proof fn lemma_on_screen_row_is_feature(m: TableModel)
    requires
        m.has_layer(),
        m.visible_rows() > 0,
        m.selection_on_screen(),
    ensures
        1 <= m.current_row() <= m.feature_count(),
{
}

/// Jumping to the first feature selects feature 1; jumping to the last selects the last feature.
pub proof fn law_nav_v_jumps(m: TableModel)
    requires
        m.wf(),
        m.has_layer(),
        m.visible_rows() > 0,
        m.selection_on_screen(),
    ensures
        m.nav_v_result(TatNavVertical::First).current_row() == 1,
        m.nav_v_result(TatNavVertical::Last).current_row() == m.feature_count(),
{
    reveal(TableModel::nav_v_step);
    lemma_nav_last_on_screen(m);
}

/// Jumping to a feature that exists selects it, wherever the selection was before.
pub proof fn law_nav_v_specific_selects_row(m: TableModel, row: i64)
    requires
        m.wf(),
        m.has_layer(),
        m.visible_rows() > 0,
        row <= m.feature_count(),
        m.nav_v_in_range(TatNavVertical::Specific(row)),
    ensures
        m.nav_v_result(TatNavVertical::Specific(row)).current_row() == row,
{
    reveal(TableModel::nav_v_step);
}

/// A new table area keeps the selected feature selected: when the area changes, the table
/// already had an area and the selected feature still exists, the same feature is selected
/// afterwards.
pub proof fn law_set_rects_keeps_selected_feature(m: TableModel, rects: TableRects)
    requires
        m.wf(),
        m.set_rects_in_range(rects),
        m.rects_take_effect(rects),
        !m.table_rect.spec_is_empty(),
        m.current_row() <= m.feature_count(),
        m.with_rects_stored(rects).visible_rows() > 0,
    ensures
        m.set_rects_result(rects).current_row() == m.current_row(),
{
    let stored = m.with_rects_stored(rects);
    assert(stored.wf());
    assert(stored.has_layer());
    assert(stored.feature_count() == m.feature_count());
    law_nav_v_specific_selects_row(stored, m.current_row() as i64);
}

/// Moving the selection one row down and then one row up selects the same feature again, when
/// the selection was not on the last visible row.
pub proof fn law_down_then_up_returns_to_row(m: TableModel)
    requires
        m.wf(),
        m.has_layer(),
        m.visible_rows() > 0,
        m.selection_on_screen(),
        m.rel_row() + 1 < m.visible_rows(),
        m.rel_row() < i16::MAX,
    ensures
        m.nav_v_result(TatNavVertical::DownOne).nav_v_in_range(TatNavVertical::UpOne),
        m.nav_v_result(TatNavVertical::DownOne).nav_v_result(TatNavVertical::UpOne).current_row()
            == m.current_row(),
{
    reveal(TableModel::nav_v_step);
    let down = m.nav_v_result(TatNavVertical::DownOne);
    assert(down.rel_row() == m.rel_row() + 1);
    assert(down.has_layer() && down.visible_rows() == m.visible_rows());
    let r = m.rel_row() + 1;
    assert(((r as u64) as i16) as int == r);
}

/// Horizontal navigation keeps the selected column on screen: when it was one of the visible
/// columns before, it is one of them after every step.
pub proof fn law_nav_h_keeps_column_on_screen(m: TableModel, conf: TatNavHorizontal)
    requires
        m.wf(),
        m.column_on_screen(),
    ensures
        m.nav_h_result(conf).column_on_screen(),
        m.has_layer() && m.visible_columns() > 0 ==> m.nav_h_result(conf).current_column()
            < m.field_count(),
{
}

/// Resetting the table selects the first feature and the first column.
pub proof fn law_reset_selects_first_cell(m: TableModel)
    requires
        m.wf(),
    ensures
        m.reset_result().current_row() == 1,
        m.reset_result().current_column() == 0,
        m.reset_result().wf(),
{
}

/// The top row after asking for `target` as the top row, when the top row is `top` and the
/// largest top row is `max_top`
pub open spec fn top_after(top: int, target: int, max_top: int) -> int {
    if target == top {
        top
    } else if max_top <= 1 {
        1
    } else if target >= max_top {
        max_top
    } else if target <= 1 {
        1
    } else {
        target
    }
}

/// Whether jumping to `row` selects a visible row, with `top` the top row, `visible` the number
/// of visible rows, `max_top` the largest top row, `rel` the selected row among the visible ones
/// and `count` the number of features
pub open spec fn jump_selects_visible_row(
    top: int,
    visible: int,
    max_top: int,
    rel: int,
    row: int,
    count: int,
) -> bool {
    ||| row >= count
    ||| top <= row <= top + visible - 1
    ||| row - rel >= i64::MIN && {
        let t = top_after(top, row - rel, max_top);
        t <= row <= t + visible - 1
    }
}

/// Widget for displaying the attribute table
pub struct TatTable {
    selected_row: Option<usize>,
    selected_column: Option<usize>,
    /// The uppermost visible row.
    top_row: u64,
    first_column: u64,
    v_scroll: TatScrollbar,
    h_scroll: TatScrollbar,
    layer_index: usize,
    layers: Vec<TatLayer>,
    table_rect: TatRect,
    feature_col_rect: TatRect,
    v_scroll_area: TatRect,
    h_scroll_area: TatRect,
}

impl View for TatTable {
    type V = TableModel;

    closed spec fn view(&self) -> TableModel {
        TableModel {
            selected_row: self.selected_row,
            selected_column: self.selected_column,
            top_row: self.top_row,
            first_column: self.first_column,
            v_scroll: self.v_scroll,
            h_scroll: self.h_scroll,
            layer_index: self.layer_index,
            layers: self.layers@.map_values(|l: TatLayer| l@),
            table_rect: self.table_rect,
            feature_col_rect: self.feature_col_rect,
            v_scroll_area: self.v_scroll_area,
            h_scroll_area: self.h_scroll_area,
        }
    }
}

impl TatTable {
    /// Constructs new object
    pub fn new() -> (t: Self)
        ensures
            t@.wf(),
            t@.layers.len() == 0,
            t@.layer_index == 0,
            t@.top_row == 1,
            t@.first_column == 0,
            t@.selected_row == Some(0usize),
            t@.selected_column == Some(0usize),
            t@.v_scroll == (TatScrollbar { content_length: 0, position: 0 }),
            t@.h_scroll == (TatScrollbar { content_length: 0, position: 0 }),
            t@.table_rect == (TatRect { x: 0, y: 0, width: 0, height: 0 }),
            t@.feature_col_rect == (TatRect { x: 0, y: 0, width: 0, height: 0 }),
            t@.v_scroll_area == (TatRect { x: 0, y: 0, width: 0, height: 0 }),
            t@.h_scroll_area == (TatRect { x: 0, y: 0, width: 0, height: 0 }),
    {
        let t = Self {
            selected_row: Some(0),
            selected_column: Some(0),
            top_row: 1,
            first_column: 0,
            v_scroll: TatScrollbar { content_length: 0, position: 0 },
            h_scroll: TatScrollbar { content_length: 0, position: 0 },
            layer_index: 0,
            table_rect: TatRect::default(),
            feature_col_rect: TatRect::default(),
            v_scroll_area: TatRect::default(),
            h_scroll_area: TatRect::default(),
            layers: Vec::new(),
        };
        proof {
            assert(t@.layers =~= Seq::<LayerState>::empty());
        }
        t
    }

    /// Adds a layer to the table
    pub fn add_layer(&mut self, lyr: TatLayer)
        requires
            old(self)@.wf(),
        ensures
            final(self)@ == (TableModel { layers: old(self)@.layers.push(lyr@), ..old(self)@ }),
            final(self)@.wf(),
    {
        proof {
            use_type_invariant(&lyr);
        }
        let ghost l = lyr@;
        self.layers.push(lyr);
        proof {
            assert(self@.layers =~= old(self)@.layers.push(l));
        }
    }

    /// Stores the cache of feature ids of a layer
    pub fn add_fid_cache(&mut self, layer_index: usize, cache: Vec<u64>)
        requires
            old(self)@.wf(),
            layer_index < old(self)@.layers.len(),
        ensures
            final(self)@ == (TableModel {
                layers: old(self)@.layers.update(
                    layer_index as int,
                    LayerState { fid_cache: cache@, ..old(self)@.layers[layer_index as int] },
                ),
                ..old(self)@
            }),
            final(self)@.wf(),
    {
        let ghost c = cache@;
        self.layers[layer_index].set_fid_cache(cache);
        proof {
            assert(self@.layers =~= old(self)@.layers.update(
                layer_index as int,
                LayerState { fid_cache: c, ..old(self)@.layers[layer_index as int] },
            ));
        }
    }

    /// Stores the values of a feature of the layer at `lyr_index`, which were read for the table
    pub fn add_feature(&mut self, lyr_index: usize, f: TatFeature)
        requires
            old(self)@.wf(),
            lyr_index < old(self)@.layers.len(),
        ensures
            final(self)@ == (TableModel {
                layers: old(self)@.layers.update(
                    lyr_index as int,
                    old(self)@.layers[lyr_index as int].add_feature_result(f@),
                ),
                ..old(self)@
            }),
            final(self)@.wf(),
    {
        let ghost fv = f@;
        self.layers[lyr_index].add_feature(f);
        proof {
            assert(self@.layers =~= old(self)@.layers.update(
                lyr_index as int,
                old(self)@.layers[lyr_index as int].add_feature_result(fv),
            ));
        }
    }

    /// Returns the ids of the visible features whose values the selected layer does not hold
    /// yet, from the top, so that they can be read
    pub fn missing_feature_ids(&self) -> (r: Vec<u64>)
        requires
            self@.wf(),
        ensures
            r@ == self@.missing_fids(),
    {
        let layer = match self.layer() {
            None => return Vec::new(),
            Some(layer) => layer,
        };
        let vr = self.visible_rows();
        let ghost m = self@;
        let mut r: Vec<u64> = Vec::new();
        let mut k: u64 = 0;
        while k < vr
            invariant
                m == self@,
                m.has_layer(),
                layer@ == m.current_layer(),
                vr == m.visible_rows(),
                1 <= m.top_row <= MAX_FEATURE_COUNT + 1,
                vr <= MAX_FEATURE_COUNT,
                k <= vr,
                r@ == m.missing_fids_upto(k as int),
            decreases vr - k,
        {
            let pos: u64 = self.top_row + k - 1;
            if (pos as u128) < (layer.fid_cache().len() as u128) {
                let fid = layer.fid_cache()[pos as usize];
                if !layer.has_feature(fid) {
                    r.push(fid);
                }
            }
            k = k + 1;
        }
        r
    }

    /// Sets currently selected layer's index
    pub fn set_layer_index(&mut self, idx: usize)
        ensures
            final(self)@ == (TableModel { layer_index: idx, ..old(self)@ }),
    {
        self.layer_index = idx;
    }

    /// Returns currently selected layer
    pub fn layer(&self) -> (r: Option<&TatLayer>)
        ensures
            r is Some <==> self@.has_layer(),
            r is Some ==> r->0@ == self@.current_layer(),
    {
        if self.layer_index < self.layers.len() {
            Some(&self.layers[self.layer_index])
        } else {
            None
        }
    }

    /// Returns the layers of the table
    pub fn layers(&self) -> (r: &[TatLayer])
        ensures
            r@.map_values(|l: TatLayer| l@) == self@.layers,
    {
        self.layers.as_slice()
    }

    /// Returns the uppermost visible row
    pub fn top_row(&self) -> (r: u64)
        ensures
            r == self@.top_row,
    {
        self.top_row
    }

    /// Returns the first visible column
    pub fn first_column(&self) -> (r: u64)
        ensures
            r == self@.first_column,
    {
        self.first_column
    }

    /// Returns the state of the vertical scrollbar
    pub fn v_scroll(&self) -> (r: TatScrollbar)
        ensures
            r == self@.v_scroll,
    {
        self.v_scroll
    }

    /// Returns the state of the horizontal scrollbar
    pub fn h_scroll(&self) -> (r: TatScrollbar)
        ensures
            r == self@.h_scroll,
    {
        self.h_scroll
    }

    /// Returns the areas the table is drawn in
    pub fn rects(&self) -> (r: TableRects)
        ensures
            r == (self@.table_rect, self@.feature_col_rect, self@.v_scroll_area, self@.h_scroll_area),
    {
        (self.table_rect, self.feature_col_rect, self.v_scroll_area, self.h_scroll_area)
    }

    /// Returns the index of the highlighted row from the current visible rows
    pub fn relative_highlighted_row(&self) -> (r: u64)
        ensures
            r == self@.rel_row(),
    {
        match self.selected_row {
            Some(sel) => sel as u64,
            None => 0,
        }
    }

    /// Returns the index of the highlighted column from the current visible columns
    pub fn relative_highlighted_column(&self) -> (r: u64)
        requires
            self@.wf(),
        ensures
            r == self@.rel_col(),
    {
        match self.selected_column {
            Some(sel) => sel as u64,
            None => 0,
        }
    }

    /// Returns currently selected row's index
    pub fn current_row(&self) -> (r: u64)
        requires
            self@.wf(),
        ensures
            r == self@.current_row(),
    {
        self.top_row + self.relative_highlighted_row()
    }

    /// Returns the currently selected column index which can be used in TatLayer
    pub fn current_column(&self) -> (r: u64)
        requires
            self@.wf(),
            self@.current_column() <= u64::MAX,
        ensures
            r == self@.current_column(),
    {
        self.first_column + self.relative_highlighted_column()
    }

    /// Returns the name of the currently selected column
    pub fn current_column_name(&self) -> (r: Option<String>)
        requires
            self@.wf(),
            self@.current_column() <= u64::MAX,
        ensures
            match r {
                Some(n) => self@.has_layer() && self@.current_layer().field_name(
                    (self@.current_column() as u64) as i32 as int,
                ) == Some(n@),
                None => !self@.has_layer() || self@.current_layer().field_name(
                    (self@.current_column() as u64) as i32 as int,
                ) is None,
            },
    {
        let col = self.current_column();
        match self.layer() {
            Some(layer) => {
                proof {
                    assert(self@.layers[self.layer_index as int].wf());
                }
                layer.field_name_by_id(col as i32)
            },
            None => None,
        }
    }

    /// Returns the currently selected cell's value as a string (if any)
    pub fn selected_value(&self) -> (r: Option<String>)
        requires
            self@.wf(),
            self@.selected_value_in_range(),
        ensures
            match r {
                Some(v) => self@.selected_value() == Some(v@),
                None => self@.selected_value() is None,
            },
    {
        let col = self.current_column();
        let row = self.current_row();
        match self.layer() {
            Some(layer) => {
                if col > i32::MAX as u64 {
                    None
                } else {
                    let n = layer.fid_cache().len();
                    assert(((row - 1) as usize) as int == row - 1) by {
                        assert(row - 1 < n);
                    }
                    layer.get_value_by_row(row - 1, col as i32)
                }
            },
            None => None,
        }
    }

    /// Returns the number of rows currently visible
    pub fn visible_rows(&self) -> (r: u64)
        requires
            self@.wf(),
        ensures
            r == self@.visible_rows(),
    {
        match self.layer() {
            None => 0,
            Some(layer) => {
                let value: u64 = if self.table_rect.height >= 4 {
                    (self.table_rect.height - 4) as u64
                } else {
                    0
                };
                if value > layer.feature_count() {
                    layer.feature_count()
                } else {
                    value
                }
            },
        }
    }

    /// Returns the number of columns currently visible
    pub fn visible_columns(&self) -> (r: u64)
        requires
            self@.wf(),
        ensures
            r == self@.visible_columns(),
            r <= self@.field_count() || !self@.has_layer(),
    {
        match self.layer() {
            None => 0,
            Some(layer) => {
                proof {
                    assert(self@.layers[self.layer_index as int].wf());
                }
                let fc = layer.field_count();
                let min_len = MIN_COLUMN_LENGTH as u64;
                assert(fc * min_len <= i32::MAX * 30) by (nonlinear_arith)
                    requires
                        fc <= i32::MAX,
                        min_len == 30,
                ;
                if fc * min_len < self.table_rect.width as u64 {
                    fc
                } else {
                    (self.table_rect.width / MIN_COLUMN_LENGTH) as u64
                }
            },
        }
    }

    /// Returns the row which if the top row all other rows will be visible as well
    pub fn max_top_row(&self) -> (r: i64)
        requires
            self@.wf(),
        ensures
            r == self@.max_top_row(),
    {
        let vr = self.visible_rows();
        match self.layer() {
            None => 1,
            Some(layer) => {
                proof {
                    assert(self@.layers[self.layer_index as int].wf());
                }
                layer.feature_count() as i64 - vr as i64 + 1
            },
        }
    }

    /// Returns the currently visible bottom row
    pub fn bottom_row(&self) -> (r: u64)
        requires
            self@.wf(),
        ensures
            r == self@.bottom_row(),
    {
        self.top_row + self.visible_rows() - 1
    }

    /// Returns whether all rows are currently visible
    pub fn all_rows_visible(&self) -> (r: bool)
        requires
            self@.wf(),
        ensures
            r == self@.all_rows_visible(),
    {
        match self.layer() {
            None => true,
            Some(layer) => self.visible_rows() >= layer.feature_count(),
        }
    }

    /// Returns whether the given row is currently visible
    pub fn row_visible(&self, row: i64) -> (r: bool)
        requires
            self@.wf(),
        ensures
            r == self@.row_visible(row as int),
    {
        let top = self.top_row as i64;
        let bottom = self.bottom_row() as i64;
        row >= top && row <= bottom
    }

    /// Returns the relative row of a feature in the currently visible rows
    pub fn feature_relative_row(&self, row: i64) -> (r: Result<u64, &'static str>)
        requires
            self@.wf(),
        ensures
            r is Ok <==> self@.row_visible(row as int),
            r is Ok ==> r->Ok_0 == row - self@.top_row,
    {
        if !self.row_visible(row) {
            return Err("Feature is not visible!");
        }
        Ok((row - self.top_row as i64) as u64)
    }

    /// Sets the column which is displayed first
    fn set_first_column(&mut self, col: i64)
        requires
            old(self)@.wf(),
        ensures
            final(self)@ == old(self)@.with_first_column(col as int),
            final(self)@.wf(),
    {
        let vc = self.visible_columns();
        match self.layer() {
            None => {},
            Some(layer) => {
                proof {
                    assert(self@.layers[self.layer_index as int].wf());
                }
                let max_first_column: i64 = layer.field_count() as i64 - vc as i64;
                if col >= max_first_column {
                    self.first_column = max_first_column as u64;
                } else if col <= 0 {
                    self.first_column = 0;
                } else {
                    self.first_column = col as u64;
                }
            },
        }
    }

    /// Sets the row which is displayed first
    fn set_top_row(&mut self, row: i64)
        requires
            old(self)@.wf(),
        ensures
            final(self)@ == old(self)@.with_top_row(row as int),
            final(self)@.wf(),
    {
        if row == self.top_row as i64 {
            return ;
        }
        let max_top = self.max_top_row();
        if max_top <= 1 {
            self.top_row = 1;
            return ;
        }
        if row >= max_top {
            self.top_row = max_top as u64;
            return ;
        }
        if row <= 1 {
            self.top_row = 1;
            return ;
        }
        self.top_row = row as u64;
    }

    /// Handles horizontal navigation (in columns)
    pub fn nav_h(&mut self, conf: TatNavHorizontal)
        requires
            old(self)@.wf(),
            old(self)@.current_column() <= u64::MAX,
        ensures
            final(self)@ == old(self)@.nav_h_result(conf),
            final(self)@.wf(),
    {
        if self.layer().is_none() {
            return ;
        }
        let vc = self.visible_columns();
        if vc == 0 {
            return ;
        }
        proof {
            assert(self@.layers[self.layer_index as int].wf());
        }
        match conf {
            TatNavHorizontal::Home => {
                self.set_first_column(0);
                self.selected_column = Some(0);
                self.update_h_scrollbar();
            },
            TatNavHorizontal::End => {
                let fc = match self.layer() {
                    Some(layer) => layer.field_count(),
                    None => 0,
                };
                self.set_first_column(fc as i64 - vc as i64);
                self.selected_column = Some((vc - 1) as usize);
                self.update_h_scrollbar();
            },
            TatNavHorizontal::RightOne => {
                let relative_col = self.relative_highlighted_column();
                let real_col = self.current_column();
                if relative_col == vc - 1 {
                    let cols = match self.layer() {
                        Some(layer) => layer.field_count(),
                        None => 0,
                    };
                    if real_col == cols {
                        self.update_h_scrollbar();
                        return ;
                    } else {
                        self.set_first_column(self.first_column as i64 + 1);
                    }
                    self.update_h_scrollbar();
                    return ;
                }
                self.selected_column = match self.selected_column {
                    Some(i) => Some(i.saturating_add(1)),
                    None => Some(0),
                };
            },
            TatNavHorizontal::LeftOne => {
                let relative_col = self.relative_highlighted_column();
                if relative_col == 0 {
                    if self.first_column == 0 {
                        self.update_h_scrollbar();
                        return ;
                    } else {
                        self.set_first_column(self.first_column as i64 - 1);
                    }
                    self.update_h_scrollbar();
                    return ;
                }
                self.selected_column = match self.selected_column {
                    Some(i) => Some(i.saturating_sub(1)),
                    None => Some(usize::MAX),
                };
            },
        }
    }

    /// Moves the selection by `amount` rows: within the visible rows the selection moves, past
    /// them the table scrolls
    fn nav_by(&mut self, amount: i64, visible_rows: i64)
        requires
            old(self)@.wf(),
            old(self)@.has_layer(),
            visible_rows == old(self)@.visible_rows(),
            visible_rows > 0,
            -visible_rows <= amount <= visible_rows,
            old(self)@.nav_by_in_range(amount as int),
        ensures
            final(self)@ == old(self)@.nav_by_result(amount as int),
            final(self)@.wf(),
    {
        let row = self.relative_highlighted_row();
        if amount > 0 {
            if row + amount as u64 >= visible_rows as u64 {
                self.set_top_row(self.top_row as i64 + amount);
            } else {
                let sel = match self.selected_row {
                    Some(s) => s,
                    None => 0,
                };
                self.selected_row = Some(sel.saturating_add(amount as u16 as usize));
            }
        } else {
            let abs_amount = -amount;
            if (row as i16 - abs_amount as i16) < 0 {
                self.set_top_row(self.top_row as i64 - abs_amount);
            } else {
                let sel = match self.selected_row {
                    Some(s) => s,
                    None => 0,
                };
                self.selected_row = Some(sel.saturating_sub(abs_amount as u16 as usize));
            }
        }
    }

    /// Jumps to the last feature
    fn nav_last(&mut self, visible_rows: i64)
        requires
            old(self)@.wf(),
            old(self)@.has_layer(),
            visible_rows == old(self)@.visible_rows(),
            visible_rows > 0,
        ensures
            final(self)@ == old(self)@.nav_last_result(),
            final(self)@.wf(),
    {
        let fc = match self.layer() {
            Some(layer) => layer.feature_count(),
            None => 0,
        };
        let jump_to_relative: i64 = if self.all_rows_visible() {
            if fc > 0 {
                fc as i64 - 1
            } else {
                0
            }
        } else {
            visible_rows - 1
        };
        let max_top = self.max_top_row();
        self.set_top_row(max_top);
        self.selected_row = Some(jump_to_relative as usize);
    }

    /// Handles vertical navigation (in rows)
    pub fn nav_v(&mut self, conf: TatNavVertical)
        requires
            old(self)@.wf(),
            old(self)@.nav_v_in_range(conf),
        ensures
            final(self)@ == old(self)@.nav_v_result(conf),
            final(self)@.wf(),
    {
        reveal(TableModel::nav_v_step);
        if self.layer().is_none() {
            return ;
        }
        let visible_rows = self.visible_rows() as i64;
        if visible_rows <= 0 {
            return ;
        }
        match conf {
            TatNavVertical::First => {
                self.set_top_row(1);
                self.selected_row = Some(0);
            },
            TatNavVertical::Last => {
                self.nav_last(visible_rows);
            },
            TatNavVertical::DownOne => {
                self.nav_by(1, visible_rows);
            },
            TatNavVertical::UpOne => {
                self.nav_by(-1, visible_rows);
            },
            TatNavVertical::DownHalfParagraph => {
                self.nav_by(visible_rows / 2, visible_rows);
            },
            TatNavVertical::UpHalfParagraph => {
                self.nav_by(-(visible_rows / 2), visible_rows);
            },
            TatNavVertical::DownParagraph => {
                self.nav_by(visible_rows, visible_rows);
            },
            TatNavVertical::UpParagraph => {
                self.nav_by(-visible_rows, visible_rows);
            },
            TatNavVertical::MouseScrollDown => {
                self.nav_by(visible_rows / 3, visible_rows);
            },
            TatNavVertical::MouseScrollUp => {
                self.nav_by(-(visible_rows / 3), visible_rows);
            },
            TatNavVertical::Specific(row) => {
                let fc = match self.layer() {
                    Some(layer) => layer.feature_count(),
                    None => 0,
                };
                if row >= fc as i64 {
                    self.nav_last(visible_rows);
                } else if self.row_visible(row) {
                    let rel = self.feature_relative_row(row);
                    match rel {
                        Ok(r) => {
                            self.selected_row = Some(r as usize);
                        },
                        Err(_) => {},
                    }
                } else {
                    let rel = self.relative_highlighted_row() as i64;
                    self.set_top_row(row - rel);
                    let rel = self.feature_relative_row(row);
                    match rel {
                        Ok(r) => {
                            self.selected_row = Some(r as usize);
                        },
                        Err(_) => {},
                    }
                }
            },
        }
        self.update_v_scrollbar();
    }

    /// Returns whether moving the selection by `amount` rows stays in the 16-bit arithmetic the
    /// table moves up with
    fn nav_by_allowed(&self, amount: i64) -> (b: bool)
        requires
            amount > i64::MIN,
        ensures
            b == self@.nav_by_in_range(amount as int),
    {
        if amount > 0 {
            return true;
        }
        let row = self.relative_highlighted_row();
        let abs_amount: i64 = -amount;
        let diff: i32 = (row as i16) as i32 - (abs_amount as i16) as i32;
        i16::MIN as i32 <= diff && diff <= i16::MAX as i32
    }

    /// Returns whether jumping to `row` selects a visible row, given the top row, the number of
    /// visible rows, the largest top row and the number of features
    fn jump_allowed(top: u64, visible: u64, max_top: i64, rel: u64, row: i64, count: u64) -> (b:
        bool)
        requires
            top <= MAX_FEATURE_COUNT + 1,
            visible <= MAX_FEATURE_COUNT,
            rel <= u16::MAX,
            max_top <= MAX_FEATURE_COUNT + 1,
        ensures
            b == jump_selects_visible_row(
                top as int,
                visible as int,
                max_top as int,
                rel as int,
                row as int,
                count as int,
            ),
    {
        if row as i128 >= count as i128 {
            return true;
        }
        if top as i128 <= row as i128 && row as i128 <= top as i128 + visible as i128 - 1 {
            return true;
        }
        let target: i128 = row as i128 - rel as i128;
        if target < i64::MIN as i128 {
            return false;
        }
        let t: i128 = if target == top as i128 {
            top as i128
        } else if max_top <= 1 {
            1
        } else if target >= max_top as i128 {
            max_top as i128
        } else if target <= 1 {
            1
        } else {
            target
        };
        t <= row as i128 && row as i128 <= t + visible as i128 - 1
    }

    /// Returns whether vertical navigation stays within the arithmetic of the table and selects
    /// a visible row, which `nav_v` needs
    pub fn nav_v_allowed(&self, conf: TatNavVertical) -> (b: bool)
        requires
            self@.wf(),
        ensures
            b == self@.nav_v_in_range(conf),
    {
        let fc = match self.layer() {
            None => return true,
            Some(layer) => layer.feature_count(),
        };
        let vr = self.visible_rows();
        if vr == 0 {
            return true;
        }
        let vr_i: i64 = vr as i64;
        match conf {
            TatNavVertical::UpOne => self.nav_by_allowed(-1),
            TatNavVertical::DownHalfParagraph => self.nav_by_allowed(vr_i / 2),
            TatNavVertical::UpHalfParagraph => self.nav_by_allowed(-(vr_i / 2)),
            TatNavVertical::UpParagraph => self.nav_by_allowed(-vr_i),
            TatNavVertical::MouseScrollDown => self.nav_by_allowed(vr_i / 3),
            TatNavVertical::MouseScrollUp => self.nav_by_allowed(-(vr_i / 3)),
            TatNavVertical::Specific(row) => {
                let max_top = self.max_top_row();
                proof {
                    assert(self@.with_top_row(row - self@.rel_row()).top_row == top_after(
                        self@.top_row as int,
                        row - self@.rel_row(),
                        self@.max_top_row(),
                    ));
                }
                TatTable::jump_allowed(
                    self.top_row,
                    vr,
                    max_top,
                    self.relative_highlighted_row(),
                    row,
                    fc,
                )
            },
            _ => true,
        }
    }

    /// Returns what the table shows: the names of the visible columns and the texts of the cells
    /// of each visible row (nothing without a layer)
    pub fn get_table(&self) -> (r: (Vec<String>, Vec<Vec<String>>))
        requires
            self@.wf(),
            self@.contents_in_range(),
        ensures
            !self@.has_layer() ==> r.0@.len() == 0 && r.1@.len() == 0,
            self@.has_layer() ==> {
                &&& r.0@.map_values(|n: String| n@) == self@.visible_column_names()
                &&& r.1@.len() == self@.visible_rows()
                &&& forall|k: int|
                    0 <= k < r.1@.len() ==> (#[trigger] r.1@[k])@.map_values(|t: String| t@)
                        == self@.visible_row_cells(k)
            },
    {
        let layer = match self.layer() {
            None => return (Vec::new(), Vec::new()),
            Some(layer) => layer,
        };
        proof {
            assert(self@.layers[self.layer_index as int].wf());
        }
        let vc = self.visible_columns();
        let vr = self.visible_rows();
        let first = self.first_column;
        let ghost m = self@;
        let mut header: Vec<String> = Vec::new();
        let mut j: u64 = first;
        while j < first + vc
            invariant
                m == self@,
                m.has_layer(),
                layer@ == m.current_layer(),
                m.current_layer().wf(),
                vc == m.visible_columns(),
                first == m.first_column,
                first + vc <= m.field_count(),
                m.field_count() <= i32::MAX,
                first <= j <= first + vc,
                header@.len() == j - first,
                forall|c: int|
                    0 <= c < header@.len() ==> (#[trigger] header@[c])@ == m.current_layer().field_name(
                        first + c,
                    ).unwrap(),
            decreases first + vc - j,
        {
            match layer.field_name_by_id(j as i32) {
                Some(name) => header.push(name),
                None => {},
            }
            j = j + 1;
        }
        proof {
            assert(header@.map_values(|n: String| n@) =~= m.visible_column_names());
        }
        let mut rows: Vec<Vec<String>> = Vec::new();
        let mut k: u64 = 0;
        while k < vr
            invariant
                m == self@,
                m.has_layer(),
                layer@ == m.current_layer(),
                vc == m.visible_columns(),
                vr == m.visible_rows(),
                first == m.first_column,
                1 <= m.top_row <= MAX_FEATURE_COUNT + 1,
                vr <= MAX_FEATURE_COUNT,
                first + vc <= i32::MAX,
                k <= vr,
                rows@.len() == k,
                forall|q: int|
                    0 <= q < rows@.len() ==> (#[trigger] rows@[q])@.map_values(|t: String| t@)
                        == m.visible_row_cells(q),
            decreases vr - k,
        {
            let i: u64 = self.top_row + k;
            let mut items: Vec<String> = Vec::new();
            let mut j: u64 = first;
            let has_fid = ((i - 1) as u128) < (layer.fid_cache().len() as u128);
            if has_fid {
                while j < first + vc
                    invariant
                        layer@ == m.current_layer(),
                        1 <= i,
                        i - 1 < m.current_layer().fid_cache.len(),
                        first + vc <= i32::MAX,
                        first <= j <= first + vc,
                        items@.len() == j - first,
                        forall|c: int|
                            0 <= c < items@.len() ==> (#[trigger] items@[c])@ == match m.current_layer().value_by_row(
                                i - 1,
                                first + c,
                            ) {
                                Some(v) => v,
                                None => MISSING_VALUE@,
                            },
                    decreases first + vc - j,
                {
                    let n = layer.fid_cache().len();
                    assert(((i - 1) as usize) as int == i - 1) by {
                        assert(i - 1 < n);
                    }
                    match layer.get_value_by_row(i - 1, j as i32) {
                        Some(value) => items.push(value),
                        None => items.push(String::from_str(MISSING_VALUE)),
                    }
                    j = j + 1;
                }
            }
            proof {
                assert(items@.map_values(|t: String| t@) =~= m.visible_row_cells(k as int));
            }
            rows.push(items);
            k = k + 1;
        }
        (header, rows)
    }

    /// Returns where the column of feature numbers is drawn: nothing when its area is two rows
    /// high or less; else the bordered block, the header and each visible feature's number with
    /// its row
    pub fn feature_column_layout(&self, preview: bool) -> (r: Option<(TatRect, TatRect, Vec<(u64, TatRect)>)>)
        requires
            self@.wf(),
            self@.feature_column_in_range(preview),
        ensures
            match r {
                None => self@.feature_column(preview) is None,
                Some((block, header, numbers)) => self@.feature_column(preview) == Some(
                    (block, header, numbers@),
                ),
            },
    {
        let fc = self.feature_col_rect;
        if fc.height <= 2 {
            return None;
        }
        let off: u16 = if preview {
            1
        } else {
            2
        };
        let block = if preview {
            TatRect { height: fc.height + 1, ..fc }
        } else {
            TatRect { y: fc.y + 2, height: fc.height - 2, ..fc }
        };
        let header = TatRect { x: fc.x, y: fc.y + off, height: 1, width: 11 };
        let vr = self.visible_rows();
        let top = self.top_row;
        let ghost m = self@;
        let mut numbers: Vec<(u64, TatRect)> = Vec::new();
        let mut k: u64 = 0;
        while k < vr
            invariant
                m == self@,
                fc == m.feature_col_rect,
                top == m.top_row,
                vr == m.visible_rows(),
                off == TableModel::feature_column_offset(preview),
                fc.y + off + 1 + vr <= u16::MAX,
                1 <= top <= MAX_FEATURE_COUNT + 1,
                vr <= MAX_FEATURE_COUNT,
                k <= vr,
                numbers@ =~= Seq::new(
                    k as nat,
                    |j: int|
                        (
                            (top + j) as u64,
                            TatRect { x: fc.x, y: (fc.y + off + 1 + j) as u16, height: 1, width: 11 },
                        ),
                ),
            decreases vr - k,
        {
            let y: u16 = fc.y + off + 1 + k as u16;
            numbers.push((top + k, TatRect { x: fc.x, y, height: 1, width: 11 }));
            k = k + 1;
        }
        Some((block, header, numbers))
    }

    /// Returns whether the column of feature numbers can be laid out, which
    /// `feature_column_layout` needs
    pub fn feature_column_allowed(&self, preview: bool) -> (b: bool)
        requires
            self@.wf(),
        ensures
            b == self@.feature_column_in_range(preview),
    {
        let fc = self.feature_col_rect;
        if fc.height <= 2 {
            return true;
        }
        let off: u64 = if preview {
            1
        } else {
            2
        };
        let end = fc.y as u64 + off + 1 + self.visible_rows();
        end <= u16::MAX as u64 && (!preview || fc.height < u16::MAX)
    }

    /// Returns whether the table's contents can be shown, which `get_table` needs
    pub fn contents_allowed(&self) -> (b: bool)
        requires
            self@.wf(),
        ensures
            b == self@.contents_in_range(),
    {
        let layer = match self.layer() {
            None => return true,
            Some(layer) => layer,
        };
        proof {
            assert(self@.layers[self.layer_index as int].wf());
        }
        let end = self.first_column as u128 + self.visible_columns() as u128;
        end <= layer.field_count() as u128
    }

    /// Returns whether the index of the selected column is a number
    pub fn column_allowed(&self) -> (b: bool)
        requires
            self@.wf(),
        ensures
            b == (self@.current_column() <= u64::MAX),
    {
        (self.first_column as u128) + (self.relative_highlighted_column() as u128) <= (
        u64::MAX as u128)
    }

    /// Returns whether the selected cell's value can be read, which `selected_value` needs
    pub fn selected_value_allowed(&self) -> (b: bool)
        requires
            self@.wf(),
        ensures
            b == self@.selected_value_in_range(),
    {
        if !self.column_allowed() {
            return false;
        }
        match self.layer() {
            None => true,
            Some(layer) => ((self.current_row() - 1) as u128) < (layer.fid_cache().len() as u128),
        }
    }

    /// Returns whether giving the table new areas selects a visible row, which `set_rects`
    /// needs
    pub fn set_rects_allowed(&self, rects: TableRects) -> (b: bool)
        requires
            self@.wf(),
        ensures
            b == self@.set_rects_in_range(rects),
    {
        let fc = match self.layer() {
            None => return true,
            Some(layer) => layer.feature_count(),
        };
        if self.table_rect == rects.0 {
            return true;
        }
        if self.table_rect.is_empty() {
            return true;
        }
        let h = rects.0.height;
        let v: u64 = if h >= 4 {
            (h - 4) as u64
        } else {
            0
        };
        let vr: u64 = if v > fc {
            fc
        } else {
            v
        };
        if vr == 0 {
            return true;
        }
        let max_top: i64 = fc as i64 - vr as i64 + 1;
        let top = self.top_row;
        let stored_top: u64 = if (top + vr - 1) + top >= fc {
            if max_top == top as i64 {
                top
            } else if max_top <= 1 {
                1
            } else {
                max_top as u64
            }
        } else {
            top
        };
        let row = self.current_row();
        let ghost stored = self@.with_rects_stored(rects);
        proof {
            assert(stored.visible_rows() == vr);
            assert(stored.max_top_row() == max_top);
            assert(stored.top_row == stored_top);
            assert(stored.rel_row() == self@.rel_row());
            assert(stored.with_top_row(row - stored.rel_row()).top_row == top_after(
                stored.top_row as int,
                row - stored.rel_row(),
                stored.max_top_row(),
            ));
        }
        TatTable::jump_allowed(
            stored_top,
            vr,
            max_top,
            self.relative_highlighted_row(),
            row as i64,
            fc,
        )
    }

    /// Returns the table to its first row and column and forgets its area
    pub fn reset(&mut self)
        requires
            old(self)@.wf(),
        ensures
            final(self)@ == old(self)@.reset_result(),
            final(self)@.wf(),
    {
        self.top_row = 1;
        self.first_column = 0;
        self.selected_column = Some(0);
        self.selected_row = Some(0);
        self.table_rect = TatRect::default();
    }

    /// Sets the areas which the table renders itself in
    pub fn set_rects(&mut self, rects: TableRects)
        requires
            old(self)@.wf(),
            old(self)@.set_rects_in_range(rects),
        ensures
            final(self)@ == old(self)@.set_rects_result(rects),
            final(self)@.wf(),
    {
        let (table_rect, feature_col_rect, v_scroll_area, h_scroll_area) = rects;
        let old_row = self.current_row();
        let first_update = self.table_rect.is_empty();
        let rect_changed = self.table_rect != table_rect;
        if rect_changed {
            if self.layer().is_none() {
                return ;
            }
            self.table_rect = table_rect;
            self.feature_col_rect = feature_col_rect;
            self.v_scroll_area = v_scroll_area;
            self.h_scroll_area = h_scroll_area;
            self.update_v_scrollbar();
            self.update_h_scrollbar();
            let fc = match self.layer() {
                Some(layer) => layer.feature_count(),
                None => 0,
            };
            if self.bottom_row() + self.top_row >= fc {
                let max_top = self.max_top_row();
                self.set_top_row(max_top);
            }
            if !first_update {
                self.nav_v(TatNavVertical::Specific(old_row as i64));
            }
        }
    }

    /// Updates the state of the vertical scrollbar
    fn update_v_scrollbar(&mut self)
        requires
            old(self)@.wf(),
        ensures
            final(self)@ == old(self)@.with_v_scroll_updated(),
    {
        let vr = self.visible_rows();
        match self.layer() {
            None => {},
            Some(layer) => {
                let len = (layer.feature_count() - vr + 1) as usize;
                self.v_scroll = TatScrollbar { content_length: len, position: self.top_row as usize };
            },
        }
    }

    /// Updates the state of the horizontal scrollbar
    fn update_h_scrollbar(&mut self)
        requires
            old(self)@.wf(),
        ensures
            final(self)@ == old(self)@.with_h_scroll_updated(),
    {
        let vc = self.visible_columns();
        match self.layer() {
            None => {},
            Some(layer) => {
                proof {
                    assert(self@.layers[self.layer_index as int].wf());
                }
                let len = (layer.field_count() - vc + 1) as usize;
                self.h_scroll = TatScrollbar {
                    content_length: len,
                    position: self.first_column as usize,
                };
            },
        }
    }
}


/// The table shows the rows it says it shows: the cells of the visible row `k` (counted from the
/// top row) hold, column by column, the values of the feature numbered `top_row + k`, the one at
/// that number less one in the fid cache (the missing value where it has none), and that number
/// is the one the column of feature numbers shows beside the row.
pub proof fn law_rows_show_their_features(m: TableModel, k: int, c: int, preview: bool)
    requires
        m.wf(),
        m.has_layer(),
        0 <= k < m.visible_rows(),
        0 <= c < m.visible_columns(),
        0 <= m.top_row + k - 1 < m.current_layer().fid_cache.len(),
    ensures
        m.visible_row_cells(k).len() == m.visible_columns(),
        m.visible_row_cells(k)[c] == (match m.current_layer().value_by_fid(
            m.current_layer().fid_cache[m.top_row + k - 1],
            m.first_column + c,
        ) {
            Some(v) => v,
            None => MISSING_VALUE@,
        }),
        m.feature_column(preview) matches Some((_b, _h, numbers)) ==> numbers[k].0 == m.top_row + k,
{
    assert(m.current_layer().wf());
}

/// The selected cell shows the selected value: where the selection is on a visible row and
/// column, the cell there holds what `selected_value` gives (the missing value where it gives
/// nothing).
pub proof fn law_selected_cell_shows_selected_value(m: TableModel)
    requires
        m.has_layer(),
        0 <= m.rel_row() < m.visible_rows(),
        0 <= m.rel_col() < m.visible_columns(),
        1 <= m.top_row,
        m.current_row() - 1 < m.current_layer().fid_cache.len(),
        m.current_column() <= i32::MAX,
    ensures
        m.visible_row_cells(m.rel_row())[m.rel_col()] == (match m.selected_value() {
            Some(v) => v,
            None => MISSING_VALUE@,
        }),
{
}


/// Each vertical step moves the selected feature by the distance it stands for, wherever the
/// view does not reach an end: one feature down or up, half a page down, a whole page (the
/// visible rows) down or up.
pub proof fn law_nav_v_step_sizes(m: TableModel)
    requires
        m.wf(),
        m.has_layer(),
        m.visible_rows() > 0,
        m.selection_on_screen(),
        m.visible_rows() < i16::MAX,
    ensures
        m.current_row() < m.feature_count() ==> m.nav_v_result(TatNavVertical::DownOne).current_row()
            == m.current_row() + 1,
        m.current_row() > 1 ==> m.nav_v_result(TatNavVertical::UpOne).current_row()
            == m.current_row() - 1,
        m.top_row + m.visible_rows() / 2 <= m.max_top_row() ==> m.nav_v_result(
            TatNavVertical::DownHalfParagraph,
        ).current_row() == m.current_row() + m.visible_rows() / 2,
        m.top_row + m.visible_rows() <= m.max_top_row() ==> m.nav_v_result(
            TatNavVertical::DownParagraph,
        ).current_row() == m.current_row() + m.visible_rows(),
        m.top_row > m.visible_rows() ==> m.nav_v_result(TatNavVertical::UpParagraph).current_row()
            == m.current_row() - m.visible_rows(),
{
    reveal(TableModel::nav_v_step);
    let vr = m.visible_rows();
    let rel = m.rel_row();
    assert(((rel as u64) as i16) as int == rel);
    assert((1int as i16) as int == 1);
    assert((vr as i16) as int == vr);
    assert(((vr / 2) as i16) as int == vr / 2);
    lemma_scrollbar_keeps_rows(m.nav_v_step(TatNavVertical::DownOne));
    lemma_scrollbar_keeps_rows(m.nav_v_step(TatNavVertical::UpOne));
    lemma_scrollbar_keeps_rows(m.nav_v_step(TatNavVertical::DownHalfParagraph));
    lemma_scrollbar_keeps_rows(m.nav_v_step(TatNavVertical::DownParagraph));
    lemma_scrollbar_keeps_rows(m.nav_v_step(TatNavVertical::UpParagraph));
}

} // verus!
