use ratatui::layout::{Constraint, Direction, Flex, Layout, Rect};
use vstd::prelude::*;

use crate::table::{TableRects, TatRect};

verus! {

/// How much room one part of a split area asks for
#[derive(Clone, Copy, Debug, PartialEq, Eq, Structural)]
pub enum TatConstraint {
    /// A fixed number of cells
    Length(u16),
    /// A share of the room that the other parts leave, weighted by the number
    Fill(u16),
    /// A percentage of the whole area
    Percentage(u16),
}

/// The direction in which an area is split
#[derive(Clone, Copy, Debug, PartialEq, Eq, Structural)]
pub enum TatDirection {
    Horizontal,
    Vertical,
}

/// Where the parts go when they leave room over
#[derive(Clone, Copy, Debug, PartialEq, Eq, Structural)]
pub enum TatFlex {
    /// At the start of the area
    Start,
    /// In the middle of the area
    Center,
}

/// The end of `area` along `direction`: its right edge or its bottom, at most the largest
/// coordinate
pub open spec fn area_end(area: TatRect, direction: TatDirection) -> int {
    let end = match direction {
        TatDirection::Horizontal => area.x + area.width,
        TatDirection::Vertical => area.y + area.height,
    };
    if end <= u16::MAX {
        end
    } else {
        u16::MAX as int
    }
}

/// Whether `part` lies inside `area` along `direction` and takes the area's whole extent across
/// it: a column of a horizontal split has the area's rows, a row of a vertical split the area's
/// columns
pub open spec fn part_fits(area: TatRect, direction: TatDirection, part: TatRect) -> bool {
    match direction {
        TatDirection::Horizontal => {
            &&& part.y == area.y
            &&& part.height == area.height
            &&& area.x <= part.x
            &&& part.x + part.width <= area_end(area, direction)
        },
        TatDirection::Vertical => {
            &&& part.x == area.x
            &&& part.width == area.width
            &&& area.y <= part.y
            &&& part.y + part.height <= area_end(area, direction)
        },
    }
}

/// Whether `parts` are `n` parts of `area` split along `direction`, each fitting in it
pub open spec fn parts_fit(area: TatRect, direction: TatDirection, parts: Seq<TatRect>, n: nat) -> bool {
    &&& parts.len() == n
    &&& forall|i: int| 0 <= i < n ==> part_fits(area, direction, #[trigger] parts[i])
}

/// Whether `r` lies inside `area`
pub open spec fn lies_within(area: TatRect, r: TatRect) -> bool {
    &&& area.x <= r.x
    &&& r.x + r.width <= area_end(area, TatDirection::Horizontal)
    &&& area.y <= r.y
    &&& r.y + r.height <= area_end(area, TatDirection::Vertical)
}

/// A split that the layout is asked for: the direction, where the parts go when they leave room
/// over, and what each part asks for
pub struct SplitSpec {
    pub direction: TatDirection,
    pub flex: TatFlex,
    pub constraints: Seq<TatConstraint>,
}

/// A split that the layout is asked for, as handed to ratatui
pub struct TatSplit {
    pub direction: TatDirection,
    pub flex: TatFlex,
    pub constraints: Vec<TatConstraint>,
}

impl View for TatSplit {
    type V = SplitSpec;

    open spec fn view(&self) -> SplitSpec {
        SplitSpec { direction: self.direction, flex: self.flex, constraints: self.constraints@ }
    }
}

/// Whether `parts` are what one call of ratatui's layout gave when asked to split `area` along
/// `direction`, with `flex`, by `constraints`. This is a relation, not a function: the solver may
/// give other parts on another call, and nothing more is known of it than the clauses of
/// `split_area` state.
pub uninterp spec fn ratatui_split_outcome(
    area: TatRect,
    direction: TatDirection,
    flex: TatFlex,
    constraints: Seq<TatConstraint>,
    parts: Seq<TatRect>,
) -> bool;

/// Whether `parts` came from splitting `area` as `split` asks: ratatui gave them for that request,
/// one part per constraint, each fitting in the area
pub open spec fn split_outcome(area: TatRect, split: SplitSpec, parts: Seq<TatRect>) -> bool {
    &&& parts_fit(area, split.direction, parts, split.constraints.len())
    &&& ratatui_split_outcome(area, split.direction, split.flex, split.constraints, parts)
}

/// Splits an area into one part per constraint (`Layout::split` of ratatui, on a layout made
/// with `Layout::new` from the direction and constraints, and the given flex). The contract
/// states that the parts are an outcome of ratatui's layout for this very request, and what the
/// layout's required constraints and the conversion of the solution to areas give, whatever the
/// solver chose: one part per constraint, each inside the area along the direction and with the
/// area's whole extent across it. The sizes the constraints ask for, and that the parts follow
/// one another, are weaker constraints of the solver, which may trade them off; they are not
/// stated, and the parts' positions and sizes are otherwise left open. The solver panics only
/// when it cannot add a required constraint, and the required constraints of such a layout (area
/// bounds, ordered part ends) are always consistent.
#[verifier::external_body]
fn split_area(area: TatRect, direction: TatDirection, flex: TatFlex, constraints: &[TatConstraint])
    -> (parts: Vec<TatRect>)
    ensures
        parts_fit(area, direction, parts@, constraints@.len()),
        ratatui_split_outcome(area, direction, flex, constraints@, parts@),
{
    let cs = constraints.iter().map(|c| match *c {
        TatConstraint::Length(n) => Constraint::Length(n),
        TatConstraint::Fill(n) => Constraint::Fill(n),
        TatConstraint::Percentage(n) => Constraint::Percentage(n),
    });
    let dir = match direction {
        TatDirection::Horizontal => Direction::Horizontal,
        TatDirection::Vertical => Direction::Vertical,
    };
    let fl = match flex {
        TatFlex::Start => Flex::Start,
        TatFlex::Center => Flex::Center,
    };
    let parts = Layout::new(dir, cs).flex(fl).split(Rect { x: area.x, y: area.y, width: area.width, height: area.height });
    parts.iter().map(|r| TatRect { x: r.x, y: r.y, width: r.width, height: r.height }).collect()
}

/// Splits an area as `split` asks, through ratatui's layout
fn split_by(area: TatRect, split: &TatSplit) -> (parts: Vec<TatRect>)
    ensures
        split_outcome(area, split@, parts@),
{
    split_area(area, split.direction, split.flex, split.constraints.as_slice())
}

/// Makes a split request of two parts
fn split_of_two(direction: TatDirection, flex: TatFlex, a: TatConstraint, b: TatConstraint) -> (r: TatSplit)
    ensures
        r@ == (SplitSpec { direction, flex, constraints: seq![a, b] }),
{
    let mut constraints = Vec::new();
    constraints.push(a);
    constraints.push(b);
    proof {
        assert(constraints@ =~= seq![a, b]);
    }
    TatSplit { direction, flex, constraints }
}

/// Makes a split request of three parts
fn split_of_three(
    direction: TatDirection,
    flex: TatFlex,
    a: TatConstraint,
    b: TatConstraint,
    c: TatConstraint,
) -> (r: TatSplit)
    ensures
        r@ == (SplitSpec { direction, flex, constraints: seq![a, b, c] }),
{
    let mut constraints = Vec::new();
    constraints.push(a);
    constraints.push(b);
    constraints.push(c);
    proof {
        assert(constraints@ =~= seq![a, b, c]);
    }
    TatSplit { direction, flex, constraints }
}

/// Makes a split request of one part
fn split_of_one(direction: TatDirection, flex: TatFlex, a: TatConstraint) -> (r: TatSplit)
    ensures
        r@ == (SplitSpec { direction, flex, constraints: seq![a] }),
{
    let mut constraints = Vec::new();
    constraints.push(a);
    proof {
        assert(constraints@ =~= seq![a]);
    }
    TatSplit { direction, flex, constraints }
}

/// How the table's area is split into rows: in preview a free row on top and the table's row;
/// otherwise the table's row and the horizontal scrollbar's row
pub open spec fn table_rows_split(preview: bool) -> SplitSpec {
    SplitSpec {
        direction: TatDirection::Vertical,
        flex: TatFlex::Start,
        constraints: if preview {
            seq![TatConstraint::Length(1), TatConstraint::Fill(1)]
        } else {
            seq![TatConstraint::Fill(1), TatConstraint::Length(1)]
        },
    }
}

/// How the table's row is split into columns: the column of feature numbers (11 cells) and the
/// table, and outside preview the vertical scrollbar (1 cell)
pub open spec fn table_cols_split(preview: bool) -> SplitSpec {
    SplitSpec {
        direction: TatDirection::Horizontal,
        flex: TatFlex::Start,
        constraints: if preview {
            seq![TatConstraint::Length(11), TatConstraint::Fill(1)]
        } else {
            seq![TatConstraint::Length(11), TatConstraint::Fill(1), TatConstraint::Length(1)]
        },
    }
}

/// Returns the splits that lay out the table: the rows of its area, then the columns of the
/// table's row
pub fn table_layout(preview: bool) -> (r: (TatSplit, TatSplit))
    ensures
        r.0@ == table_rows_split(preview),
        r.1@ == table_cols_split(preview),
{
    if preview {
        (
            split_of_two(TatDirection::Vertical, TatFlex::Start, TatConstraint::Length(1), TatConstraint::Fill(1)),
            split_of_two(TatDirection::Horizontal, TatFlex::Start, TatConstraint::Length(11), TatConstraint::Fill(1)),
        )
    } else {
        (
            split_of_two(TatDirection::Vertical, TatFlex::Start, TatConstraint::Fill(1), TatConstraint::Length(1)),
            split_of_three(
                TatDirection::Horizontal,
                TatFlex::Start,
                TatConstraint::Length(11),
                TatConstraint::Fill(1),
                TatConstraint::Length(1),
            ),
        )
    }
}

/// Whether `rows` and `cols` are the parts that the table's layout splits `rect` into: the rows
/// of `rect`, then the columns of the table's row (the second row in preview, the first
/// otherwise)
pub open spec fn table_split(rect: TatRect, preview: bool, rows: Seq<TatRect>, cols: Seq<TatRect>) -> bool {
    &&& split_outcome(rect, table_rows_split(preview), rows)
    &&& split_outcome(if preview { rows[1] } else { rows[0] }, table_cols_split(preview), cols)
}

/// The areas of the table made from the parts of its layout. In preview the table reaches one
/// row below its part and there are no scrollbars. Otherwise the horizontal scrollbar takes the
/// bottom row and the vertical scrollbar the rightmost column.
pub open spec fn table_rects_of(rows: Seq<TatRect>, cols: Seq<TatRect>, preview: bool) -> TableRects {
    let zero = TatRect { x: 0, y: 0, width: 0, height: 0 };
    if preview {
        (TatRect { height: (cols[1].height + 1) as u16, ..cols[1] }, cols[0], zero, zero)
    } else {
        (cols[1], cols[0], cols[2], rows[1])
    }
}

/// Whether the table's areas can be made from the parts: in preview the table's part is made a
/// row higher, which needs a part less than the largest height
pub open spec fn table_parts_in_range(cols: Seq<TatRect>, preview: bool) -> bool {
    preview ==> cols[1].height < u16::MAX
}

/// Whether `rects` are areas of the table in `rect`, made from some split of its layout
pub open spec fn table_rects_fit(rect: TatRect, preview: bool, rects: TableRects) -> bool {
    exists|rows: Seq<TatRect>, cols: Seq<TatRect>|
        #[trigger] table_split(rect, preview, rows, cols) && table_parts_in_range(cols, preview)
            && rects == table_rects_of(rows, cols, preview)
}

/// Returns the areas of the table made from the parts of its layout: `rows` split the table's
/// area, `cols` split the row the table is in
pub fn table_rects_from_parts(rows: &[TatRect], cols: &[TatRect], preview: bool) -> (r: TableRects)
    requires
        rows@.len() == 2,
        cols@.len() == (if preview { 2int } else { 3int }),
        table_parts_in_range(cols@, preview),
    ensures
        r == table_rects_of(rows@, cols@, preview),
{
    if preview {
        let mut table_rect = cols[1];
        table_rect.height = table_rect.height + 1;
        (table_rect, cols[0], TatRect::default(), TatRect::default())
    } else {
        (cols[1], cols[0], cols[2], rows[1])
    }
}

/// Returns the areas for the table either in preview or full mode, from the layout's split of
/// `rect` as `table_layout` asks for it; nothing when, in preview, the table's part is already as
/// high as an area can be, so that it cannot reach a row further down
pub fn table_rects(rect: TatRect, preview: bool) -> (r: Option<TableRects>)
    ensures
        !preview ==> r is Some,
        exists|rows: Seq<TatRect>, cols: Seq<TatRect>|
            #[trigger] table_split(rect, preview, rows, cols) && r == (if table_parts_in_range(
                cols,
                preview,
            ) {
                Some(table_rects_of(rows, cols, preview))
            } else {
                None
            }),
        r matches Some(rects) ==> table_rects_fit(rect, preview, rects),
{
    let (rows_split, cols_split) = table_layout(preview);
    let rows = split_by(rect, &rows_split);
    let cols = if preview {
        split_by(rows[1], &cols_split)
    } else {
        split_by(rows[0], &cols_split)
    };
    proof {
        assert(table_split(rect, preview, rows@, cols@));
    }
    if preview && cols[1].height == u16::MAX {
        return None;
    }
    Some(table_rects_from_parts(rows.as_slice(), cols.as_slice(), preview))
}

/// How the main menu is split into rows: the header (2 rows), the dataset information (4 rows)
/// and the rest
pub open spec fn main_menu_rows_split() -> SplitSpec {
    SplitSpec {
        direction: TatDirection::Vertical,
        flex: TatFlex::Start,
        constraints: seq![TatConstraint::Length(2), TatConstraint::Length(4), TatConstraint::Fill(1)],
    }
}

/// How the rest of the main menu is split into columns: the layer list, the layer information
/// and the preview table, in the proportions 1 : 2 : 4
pub open spec fn main_menu_cols_split() -> SplitSpec {
    SplitSpec {
        direction: TatDirection::Horizontal,
        flex: TatFlex::Start,
        constraints: seq![TatConstraint::Fill(1), TatConstraint::Fill(2), TatConstraint::Fill(4)],
    }
}

/// Returns the splits that lay out the main menu: its rows, then the columns of the last row
pub fn main_menu_layout() -> (r: (TatSplit, TatSplit))
    ensures
        r.0@ == main_menu_rows_split(),
        r.1@ == main_menu_cols_split(),
{
    (
        split_of_three(
            TatDirection::Vertical,
            TatFlex::Start,
            TatConstraint::Length(2),
            TatConstraint::Length(4),
            TatConstraint::Fill(1),
        ),
        split_of_three(
            TatDirection::Horizontal,
            TatFlex::Start,
            TatConstraint::Fill(1),
            TatConstraint::Fill(2),
            TatConstraint::Fill(4),
        ),
    )
}

/// Whether `r` are the areas of the main menu made from the split of `area` into `rows` and of
/// its last row into `cols`: the header, the dataset information, the layer list, the layer
/// information and the preview table
pub open spec fn main_menu_split(area: TatRect, rows: Seq<TatRect>, cols: Seq<TatRect>, r: (TatRect, TatRect, TatRect, TatRect, TatRect)) -> bool {
    &&& split_outcome(area, main_menu_rows_split(), rows)
    &&& split_outcome(rows[2], main_menu_cols_split(), cols)
    &&& r == (rows[0], rows[1], cols[0], cols[1], cols[2])
}

/// Returns the rects for each section in the main menu, as `main_menu_layout` asks for them:
/// header, dataset information, layer list, layer information and preview table
pub fn main_menu_areas(area: TatRect) -> (r: (TatRect, TatRect, TatRect, TatRect, TatRect))
    ensures
        exists|rows: Seq<TatRect>, cols: Seq<TatRect>| #[trigger] main_menu_split(area, rows, cols, r),
{
    let (rows_split, cols_split) = main_menu_layout();
    let rows = split_by(area, &rows_split);
    let cols = split_by(rows[2], &cols_split);
    let r = (rows[0], rows[1], cols[0], cols[1], cols[2]);
    proof {
        assert(main_menu_split(area, rows@, cols@, r));
    }
    r
}

/// How an area is split to center a part in it vertically: one row part of the height that
/// `vertical` asks for, in the middle
pub open spec fn centered_rows_split(vertical: TatConstraint) -> SplitSpec {
    SplitSpec { direction: TatDirection::Vertical, flex: TatFlex::Center, constraints: seq![vertical] }
}

/// How the row part is split to center a part in it horizontally: one part of `percent_x`
/// percent of the width, in the middle
pub open spec fn centered_cols_split(percent_x: u16) -> SplitSpec {
    SplitSpec {
        direction: TatDirection::Horizontal,
        flex: TatFlex::Center,
        constraints: seq![TatConstraint::Percentage(percent_x)],
    }
}

/// Returns the splits that center a part in an area: of the height that `vertical` asks for and
/// `percent_x` percent of the width
pub fn centered_layout(vertical: TatConstraint, percent_x: u16) -> (r: (TatSplit, TatSplit))
    ensures
        r.0@ == centered_rows_split(vertical),
        r.1@ == centered_cols_split(percent_x),
{
    (
        split_of_one(TatDirection::Vertical, TatFlex::Center, vertical),
        split_of_one(TatDirection::Horizontal, TatFlex::Center, TatConstraint::Percentage(percent_x)),
    )
}

/// Whether `r` is the centered part of `area` made from the split of `area` into `row` and of
/// that row into `col`, as `centered_layout(vertical, percent_x)` asks
pub open spec fn centered_split(
    area: TatRect,
    vertical: TatConstraint,
    percent_x: u16,
    row: Seq<TatRect>,
    col: Seq<TatRect>,
    r: TatRect,
) -> bool {
    &&& split_outcome(area, centered_rows_split(vertical), row)
    &&& split_outcome(row[0], centered_cols_split(percent_x), col)
    &&& r == col[0]
}

/// Centers an area in `area`: of the height that `vertical` asks for and `percent_x` percent of
/// the width
fn centered_area(area: TatRect, vertical: TatConstraint, percent_x: u16) -> (r: TatRect)
    ensures
        exists|row: Seq<TatRect>, col: Seq<TatRect>|
            #[trigger] centered_split(area, vertical, percent_x, row, col, r),
        lies_within(area, r),
{
    let (rows_split, cols_split) = centered_layout(vertical, percent_x);
    let row = split_by(area, &rows_split);
    let col = split_by(row[0], &cols_split);
    proof {
        assert(part_fits(area, TatDirection::Vertical, row@[0]));
        assert(part_fits(row@[0], TatDirection::Horizontal, col@[0]));
        assert(centered_split(area, vertical, percent_x, row@, col@, col@[0]));
    }
    col[0]
}

/// Returns a flat rect in the center of the screen, asked 5 rows high and `percent_x` percent
/// wide, inside `area`
pub fn number_input_area(area: TatRect, percent_x: u16) -> (r: TatRect)
    ensures
        exists|row: Seq<TatRect>, col: Seq<TatRect>|
            #[trigger] centered_split(area, TatConstraint::Length(5), percent_x, row, col, r),
        lies_within(area, r),
{
    centered_area(area, TatConstraint::Length(5), percent_x)
}

/// Returns a rect in the center of the screen, asked `percent_x` percent wide and `percent_y`
/// percent high, inside `area`
pub fn popup_area(area: TatRect, percent_x: u16, percent_y: u16) -> (r: TatRect)
    ensures
        exists|row: Seq<TatRect>, col: Seq<TatRect>|
            #[trigger] centered_split(area, TatConstraint::Percentage(percent_y), percent_x, row, col, r),
        lies_within(area, r),
{
    centered_area(area, TatConstraint::Percentage(percent_y), percent_x)
}

/// The visible columns and rows of a bordered text area of the size of `rect`, which shows a
/// horizontal scrollbar when the longest line (`max_cols`) is wider than the room inside the
/// borders and a vertical one when the lines (`max_rows`) do not fit; each scrollbar takes a row
/// or a column. The result is `(visible_cols, has_h_scrollbar, visible_rows, has_v_scrollbar)`.
pub open spec fn text_area_dimensions_spec(rect: TatRect, max_cols: int, max_rows: int) -> (
    usize,
    bool,
    usize,
    bool,
) {
    let cols = rect.width as int;
    let rows = rect.height as int;
    let cols0 = if cols >= 2 {
        cols - 2
    } else {
        0
    };
    let has_h = max_cols > cols0;
    let taken = if has_h {
        3int
    } else {
        2int
    };
    let visible_rows = if rows >= taken {
        rows - taken
    } else {
        0
    };
    let has_v = max_rows > visible_rows;
    let visible_cols = if has_v && cols >= 3 {
        cols - 3
    } else {
        cols0
    };
    (visible_cols as usize, has_h, visible_rows as usize, has_v)
}

/// Returns visible columns and rows of a bordered text area which may or may not have
/// horizontal and/or vertical scrollbars
pub fn text_area_dimensions(rect: &TatRect, max_cols: i64, max_rows: i64) -> (r: (
    usize,
    bool,
    usize,
    bool,
))
    ensures
        r == text_area_dimensions_spec(*rect, max_cols as int, max_rows as int),
{
    let total_cols = rect.width as i64;
    let total_rows = rect.height as i64;
    let mut visible_cols: i64 = 0;
    let mut visible_rows: i64 = 0;
    let mut has_v_scroll = false;
    let mut has_h_scroll = false;
    if total_cols >= 2 {
        visible_cols = total_cols - 2;
    }
    if max_cols > visible_cols {
        has_h_scroll = true;
    }
    let taken: i64 = if has_h_scroll {
        3
    } else {
        2
    };
    if total_rows >= taken {
        visible_rows = total_rows - taken;
    }
    if max_rows > visible_rows {
        has_v_scroll = true;
    }
    if has_v_scroll {
        if total_cols >= 3 {
            visible_cols = total_cols - 3;
        }
    }
    (visible_cols as usize, has_h_scroll, visible_rows as usize, has_v_scroll)
}


/// A bordered text area shows a scrollbar exactly where its content does not fit: the
/// horizontal one when the longest line is wider than the room inside the borders, the vertical
/// one when there are more lines than the rows left inside the borders and below any horizontal
/// scrollbar; the rows and columns left are the area's less the borders and any scrollbar.
pub proof fn law_text_area_scrollbars(rect: TatRect, max_cols: int, max_rows: int)
    ensures
        ({
            let (cols, has_h, rows, has_v) = text_area_dimensions_spec(rect, max_cols, max_rows);
            let inner_w = if rect.width >= 2 { rect.width - 2 } else { 0int };
            let h_taken = if has_h { 3int } else { 2int };
            let v_taken = if has_v { 3int } else { 2int };
            &&& has_h == (max_cols > inner_w)
            &&& has_v == (max_rows > rows)
            &&& rows == (if rect.height >= h_taken { rect.height - h_taken } else { 0int })
            &&& cols == (if rect.width >= v_taken { rect.width - v_taken } else { 0int })
        }),
{
}

} // verus!
