use vstd::prelude::*;
use vstd::string::*;

use crate::text::{longest_line_len, split_lines, text_lines};
use crate::types::{TatNavHorizontal, TatNavVertical};

verus! {

/// What a navigable paragraph holds: its title, its text, the counts derived from the text, the
/// scroll offsets and the size of the area it is shown in.
pub struct ParagraphState {
    pub title: Option<Seq<char>>,
    pub text: Seq<char>,
    pub total_lines: usize,
    pub scroll_offset_v: usize,
    pub scroll_offset_h: usize,
    pub visible_rows: usize,
    pub visible_cols: usize,
    pub max_line_len: usize,
}

impl ParagraphState {
    /// The first line at which all remaining lines are also visible
    pub open spec fn last_scrollable_row(self) -> usize {
        if self.visible_rows >= self.total_lines {
            0
        } else {
            (self.total_lines - self.visible_rows) as usize
        }
    }

    /// The first column at which all remaining columns would be visible
    pub open spec fn last_scrollable_col(self) -> usize {
        if self.visible_cols >= self.max_line_len {
            0
        } else {
            (self.max_line_len - self.visible_cols) as usize
        }
    }

    /// The horizontal scroll offset after one horizontal navigation step
    pub open spec fn nav_h_offset(self, conf: TatNavHorizontal) -> usize {
        match conf {
            TatNavHorizontal::Home => 0,
            TatNavHorizontal::End => self.last_scrollable_col(),
            TatNavHorizontal::RightOne => if self.scroll_offset_h >= self.last_scrollable_col() {
                self.scroll_offset_h
            } else {
                (self.scroll_offset_h + 1) as usize
            },
            TatNavHorizontal::LeftOne => if self.scroll_offset_h == 0 {
                0
            } else {
                (self.scroll_offset_h - 1) as usize
            },
        }
    }

    /// The vertical offset reached by moving `amount` rows from the current one, kept between the
    /// first row and the last scrollable one
    pub open spec fn offset_moved_by(self, amount: int) -> usize {
        let target = self.scroll_offset_v + amount;
        if target < 0 {
            0
        } else if target > self.last_scrollable_row() {
            self.last_scrollable_row()
        } else {
            target as usize
        }
    }

    /// Whether the text fits in the visible rows, so that there is nothing to scroll
    pub open spec fn fits_vertically(self) -> bool {
        self.visible_rows >= self.total_lines
    }

    /// The counts agree with the text and the vertical offset stays within the text
    pub open spec fn wf(self) -> bool {
        &&& self.total_lines == text_lines(self.text).len()
        &&& self.max_line_len == longest_line_len(text_lines(self.text))
        &&& self.scroll_offset_v <= self.total_lines
    }

    /// The sizes stay in the range of the signed arithmetic used for vertical scrolling
    pub open spec fn vertical_sizes_in_range(self) -> bool {
        self.total_lines + self.visible_rows < i64::MAX
    }

    /// The vertical scroll offset after one vertical navigation step
    pub open spec fn nav_v_offset(self, conf: TatNavVertical) -> usize {
        let rows = self.visible_rows as int;
        if self.fits_vertically() {
            self.scroll_offset_v
        } else {
            match conf {
                TatNavVertical::First => 0,
                TatNavVertical::Last => self.last_scrollable_row(),
                TatNavVertical::DownOne => self.offset_moved_by(1),
                TatNavVertical::UpOne => self.offset_moved_by(-1),
                TatNavVertical::DownHalfParagraph => self.offset_moved_by(rows / 2),
                TatNavVertical::UpHalfParagraph => self.offset_moved_by(-(rows / 2)),
                TatNavVertical::MouseScrollDown => self.offset_moved_by(rows / 3),
                TatNavVertical::MouseScrollUp => self.offset_moved_by(-(rows / 3)),
                TatNavVertical::DownParagraph => self.offset_moved_by(rows),
                TatNavVertical::UpParagraph => self.offset_moved_by(-rows),
                TatNavVertical::Specific(_) => self.scroll_offset_v,
            }
        }
    }
}

/// Struct for displaying a text paragraph and allowing scrolling of the text
#[derive(Debug)]
pub struct TatNavigableParagraph {
    title: Option<String>,
    text: String,
    total_lines: usize,
    scroll_offset_v: usize,
    scroll_offset_h: usize,
    visible_rows: usize,
    visible_cols: usize,
    max_line_len: usize,
}

impl View for TatNavigableParagraph {
    type V = ParagraphState;

    closed spec fn view(&self) -> ParagraphState {
        ParagraphState {
            title: match self.title {
                Some(t) => Some(t@),
                None => None,
            },
            text: self.text@,
            total_lines: self.total_lines,
            scroll_offset_v: self.scroll_offset_v,
            scroll_offset_h: self.scroll_offset_h,
            visible_rows: self.visible_rows,
            visible_cols: self.visible_cols,
            max_line_len: self.max_line_len,
        }
    }
}

/// Every line of a text holds at least one of its characters or ends at one of its newlines, so
/// a text has no more lines than characters.
pub proof fn lemma_lines_at_most_chars(s: Seq<char>)
    ensures
        text_lines(s).len() <= s.len(),
    decreases s.len(),
{
    lemma_split_newlines_len(s);
}

proof fn lemma_split_newlines_len(s: Seq<char>)
    ensures
        crate::text::split_newlines(s).0.len() + crate::text::split_newlines(s).1.len() <= s.len(),
    decreases s.len(),
{
    if s.len() > 0 {
        lemma_split_newlines_len(s.drop_last());
    }
}

/// Scrolling vertically never leaves the text: when the paragraph has something to scroll, every
/// vertical step lands between the first row and the last scrollable row, and the other state is
/// untouched.
pub proof fn law_nav_v_stays_in_bounds(s: ParagraphState, conf: TatNavVertical)
    requires
        s.wf(),
        !s.fits_vertically(),
        !(conf is Specific),
    ensures
        s.nav_v_offset(conf) <= s.last_scrollable_row(),
        s.nav_v_offset(conf) <= s.total_lines,
{
}

/// When the whole text fits in the visible rows, vertical navigation leaves the offset alone.
pub proof fn law_nav_v_noop_when_fits(s: ParagraphState, conf: TatNavVertical)
    requires
        s.fits_vertically(),
    ensures
        s.nav_v_offset(conf) == s.scroll_offset_v,
{
}

/// Moving one row down and then one row up returns to the starting row, as long as the start was
/// above the last scrollable row.
pub proof fn law_down_then_up_returns(s: ParagraphState)
    requires
        s.wf(),
        !s.fits_vertically(),
        s.scroll_offset_v < s.last_scrollable_row(),
    ensures
        (ParagraphState { scroll_offset_v: s.nav_v_offset(TatNavVertical::DownOne), ..s }).nav_v_offset(
            TatNavVertical::UpOne,
        ) == s.scroll_offset_v,
{
}

/// Moving one column right and then one column left returns to the starting column, as long as
/// the start was left of the last scrollable column.
pub proof fn law_right_then_left_returns(s: ParagraphState)
    requires
        s.scroll_offset_h < s.last_scrollable_col(),
    ensures
        (ParagraphState { scroll_offset_h: s.nav_h_offset(TatNavHorizontal::RightOne), ..s }).nav_h_offset(
            TatNavHorizontal::LeftOne,
        ) == s.scroll_offset_h,
{
}

/// Horizontal navigation from a column within the scrollable range stays within it, and jumping
/// home or to the end twice is the same as doing it once.
pub proof fn law_nav_h_stays_in_bounds(s: ParagraphState, conf: TatNavHorizontal)
    requires
        s.scroll_offset_h <= s.last_scrollable_col(),
    ensures
        s.nav_h_offset(conf) <= s.last_scrollable_col(),
        (ParagraphState { scroll_offset_h: s.nav_h_offset(TatNavHorizontal::End), ..s }).nav_h_offset(
            TatNavHorizontal::End,
        ) == s.nav_h_offset(TatNavHorizontal::End),
        (ParagraphState { scroll_offset_h: s.nav_h_offset(TatNavHorizontal::Home), ..s }).nav_h_offset(
            TatNavHorizontal::Home,
        ) == 0,
{
}

impl TatNavigableParagraph {
    /// A paragraph's counts always agree with its text, and its vertical offset stays within it
    #[verifier::type_invariant]
    pub open spec fn well_formed(self) -> bool {
        self@.wf()
    }

    /// Creates a new navigable paragraph
    pub fn new(text: String) -> (p: Self)
        ensures
            p@.wf(),
            p@.title is None,
            p@.text == text@,
            p@.total_lines == text_lines(text@).len(),
            p@.max_line_len == longest_line_len(text_lines(text@)),
            p@.scroll_offset_v == 0,
            p@.scroll_offset_h == 0,
            p@.visible_rows == 0,
            p@.visible_cols == 0,
            p@.total_lines <= text@.len(),
    {
        proof {
            lemma_lines_at_most_chars(text@);
        }
        let total_lines = TatNavigableParagraph::count_total_lines(text.as_str());
        let max_line_len = TatNavigableParagraph::get_longest_line(text.as_str());
        Self {
            title: None,
            total_lines,
            max_line_len,
            text,
            scroll_offset_v: 0,
            scroll_offset_h: 0,
            visible_rows: 0,
            visible_cols: 0,
        }
    }

    /// Sets the (optional) title of the paragraph
    pub fn with_title(self, title: String) -> (p: Self)
        ensures
            p@ == (ParagraphState { title: Some(title@), ..self@ }),
    {
        proof {
            use_type_invariant(&self);
        }
        let mut p = self;
        p.title = Some(title);
        p
    }

    /// Handles horizontal navigation
    pub fn nav_h(&mut self, conf: TatNavHorizontal)
        ensures
            final(self)@ == (ParagraphState {
                scroll_offset_h: old(self)@.nav_h_offset(conf),
                ..old(self)@
            }),
    {
        proof {
            use_type_invariant(&*self);
        }
        match conf {
            TatNavHorizontal::Home => self.scroll_offset_h = 0,
            TatNavHorizontal::End => self.scroll_offset_h = self.last_scrollable_col(),
            TatNavHorizontal::RightOne => {
                if self.scroll_offset_h >= self.last_scrollable_col() {
                    return ;
                }
                self.scroll_offset_h = self.scroll_offset_h + 1;
            },
            TatNavHorizontal::LeftOne => {
                if self.scroll_offset_h == 0 {
                    return ;
                }
                self.scroll_offset_h = self.scroll_offset_h - 1;
            },
        }
    }

    /// Moves the vertical offset by `amount` rows, keeping it between the first row and the last
    /// scrollable one
    fn nav_by(&mut self, amount: i64)
        requires
            old(self)@.wf(),
            old(self)@.vertical_sizes_in_range(),
            -(old(self)@.visible_rows as int) - 1 <= amount <= old(self)@.visible_rows + 1,
        ensures
            final(self)@ == (ParagraphState {
                scroll_offset_v: old(self)@.offset_moved_by(amount as int),
                ..old(self)@
            }),
    {
        let mut new_offset: i64 = self.scroll_offset_v as i64 + amount;
        if new_offset < 0 {
            new_offset = 0;
        }
        let last = self.last_scrollable_row();
        if new_offset as i128 > last as i128 {
            new_offset = last as i64;
        }
        self.scroll_offset_v = new_offset as usize;
    }

    /// Handles vertical navigation. Jumping to a specific row is not something a paragraph does.
    pub fn nav_v(&mut self, conf: TatNavVertical)
        requires
            old(self)@.vertical_sizes_in_range(),
            !(conf is Specific) || old(self)@.fits_vertically(),
        ensures
            final(self)@ == (ParagraphState {
                scroll_offset_v: old(self)@.nav_v_offset(conf),
                ..old(self)@
            }),
            final(self)@.wf(),
    {
        proof {
            use_type_invariant(&*self);
        }
        let total_rows = self.visible_rows as i64;
        if total_rows >= self.total_lines() as i64 {
            return ;
        }
        match conf {
            TatNavVertical::First => self.scroll_offset_v = 0,
            TatNavVertical::Last => self.scroll_offset_v = self.last_scrollable_row(),
            TatNavVertical::DownOne => self.nav_by(1),
            TatNavVertical::UpOne => self.nav_by(-1),
            TatNavVertical::DownHalfParagraph => self.nav_by(total_rows / 2),
            TatNavVertical::UpHalfParagraph => self.nav_by(-(total_rows / 2)),
            TatNavVertical::MouseScrollDown => self.nav_by(total_rows / 3),
            TatNavVertical::MouseScrollUp => self.nav_by(-(total_rows / 3)),
            TatNavVertical::DownParagraph => self.nav_by(total_rows),
            TatNavVertical::UpParagraph => self.nav_by(-total_rows),
            TatNavVertical::Specific(_) => {},
        }
    }

    /// Returns whether vertical navigation with `conf` stays within the arithmetic of the
    /// paragraph and is not a jump to a specific row in a paragraph that can scroll, which `nav_v`
    /// needs
    pub fn nav_v_allowed(&self, conf: TatNavVertical) -> (b: bool)
        ensures
            b == (self@.vertical_sizes_in_range() && (!(conf is Specific)
                || self@.fits_vertically())),
    {
        let sizes_in_range = (self.total_lines as u128) + (self.visible_rows as u128) < (
        i64::MAX as u128);
        let specific_allowed = match conf {
            TatNavVertical::Specific(_) => self.visible_rows >= self.total_lines,
            _ => true,
        };
        sizes_in_range && specific_allowed
    }

    /// Returns the total number of lines in the text contents
    pub fn total_lines(&self) -> (r: usize)
        ensures
            r == self@.total_lines,
    {
        self.total_lines
    }

    /// Returns the longest line in the text contents
    pub fn max_line_len(&self) -> (r: usize)
        ensures
            r == self@.max_line_len,
    {
        self.max_line_len
    }

    /// Sets the maximum number of lines
    pub fn set_visible_rows(&mut self, available_rows: usize)
        ensures
            final(self)@ == (ParagraphState { visible_rows: available_rows, ..old(self)@ }),
    {
        proof {
            use_type_invariant(&*self);
        }
        self.visible_rows = available_rows;
    }

    /// Sets the maximum number of column
    pub fn set_visible_cols(&mut self, available_cols: usize)
        ensures
            final(self)@ == (ParagraphState { visible_cols: available_cols, ..old(self)@ }),
    {
        proof {
            use_type_invariant(&*self);
        }
        self.visible_cols = available_cols;
    }

    /// Returns the last line this paragraph can be scrolled to. This means the first line at which
    /// all remaining lines are also visible.
    pub fn last_scrollable_row(&self) -> (r: usize)
        ensures
            r == self@.last_scrollable_row(),
    {
        if self.visible_rows >= self.total_lines {
            return 0;
        }
        self.total_lines - self.visible_rows
    }

    /// Returns the last column this paragraph can be scrolled to. This means the first column at
    /// which all remaining columns would be visible.
    pub fn last_scrollable_col(&self) -> (r: usize)
        ensures
            r == self@.last_scrollable_col(),
    {
        if self.visible_cols >= self.max_line_len {
            return 0;
        }
        self.max_line_len - self.visible_cols
    }

    /// Counts the number of total lines in a string slice
    fn count_total_lines(text: &str) -> (count: usize)
        ensures
            count == text_lines(text@).len(),
    {
        let lines = split_lines(text);
        lines.len()
    }

    /// Finds the length in characters of the longest line in a string slice
    fn get_longest_line(text: &str) -> (longest: usize)
        ensures
            longest == longest_line_len(text_lines(text@)),
    {
        let lines = split_lines(text);
        let ghost all = text_lines(text@);
        let mut longest: usize = 0;
        let mut i: usize = 0;
        while i < lines.len()
            invariant
                i <= lines@.len(),
                lines@.len() == all.len(),
                forall|j: int| 0 <= j < lines@.len() ==> #[trigger] lines@[j]@ == all[j],
                longest == longest_line_len(all.take(i as int)),
            decreases lines@.len() - i,
        {
            let line = lines[i];
            proof {
                assert(all.take(i + 1).drop_last() =~= all.take(i as int));
                assert(all.take(i + 1).last() == line@);
            }
            let n = line.unicode_len();
            if n > longest {
                longest = n;
            }
            i = i + 1;
        }
        proof {
            assert(all.take(lines@.len() as int) =~= all);
        }
        longest
    }

    /// Returns the title of the paragraph (if any)
    pub fn title(&self) -> (r: Option<&String>)
        ensures
            match r {
                Some(t) => self@.title == Some(t@),
                None => self@.title is None,
            },
    {
        self.title.as_ref()
    }

    /// Returns the text of the paragraph
    pub fn text(&self) -> (r: &str)
        ensures
            r@ == self@.text,
    {
        self.text.as_str()
    }

    /// Returns the vertical scroll offset
    pub fn scroll_offset_v(&self) -> (r: usize)
        ensures
            r == self@.scroll_offset_v,
    {
        self.scroll_offset_v
    }

    /// Returns the horizontal scroll offset
    pub fn scroll_offset_h(&self) -> (r: usize)
        ensures
            r == self@.scroll_offset_h,
    {
        self.scroll_offset_h
    }

    /// Returns the number of rows the paragraph is shown in
    pub fn visible_rows(&self) -> (r: usize)
        ensures
            r == self@.visible_rows,
    {
        self.visible_rows
    }

    /// Returns the number of columns the paragraph is shown in
    pub fn visible_cols(&self) -> (r: usize)
        ensures
            r == self@.visible_cols,
    {
        self.visible_cols
    }
}


/// Each vertical step moves by the distance it stands for wherever it does not reach an edge: one
/// row, half the visible rows, a third of them (the mouse wheel) or a whole page of visible rows;
/// and a page down followed by a page up returns to the start.
pub proof fn law_nav_v_step_sizes(s: ParagraphState)
    requires
        !s.fits_vertically(),
    ensures
        s.scroll_offset_v + 1 <= s.last_scrollable_row() ==> s.nav_v_offset(
            TatNavVertical::DownOne,
        ) == s.scroll_offset_v + 1,
        1 <= s.scroll_offset_v <= s.last_scrollable_row() ==> s.nav_v_offset(TatNavVertical::UpOne)
            == s.scroll_offset_v - 1,
        s.scroll_offset_v + s.visible_rows / 2 <= s.last_scrollable_row() ==> s.nav_v_offset(
            TatNavVertical::DownHalfParagraph,
        ) == s.scroll_offset_v + s.visible_rows / 2,
        s.visible_rows / 2 <= s.scroll_offset_v <= s.last_scrollable_row() ==> s.nav_v_offset(
            TatNavVertical::UpHalfParagraph,
        ) == s.scroll_offset_v - s.visible_rows / 2,
        s.scroll_offset_v + s.visible_rows / 3 <= s.last_scrollable_row() ==> s.nav_v_offset(
            TatNavVertical::MouseScrollDown,
        ) == s.scroll_offset_v + s.visible_rows / 3,
        s.scroll_offset_v + s.visible_rows <= s.last_scrollable_row() ==> s.nav_v_offset(
            TatNavVertical::DownParagraph,
        ) == s.scroll_offset_v + s.visible_rows,
        s.visible_rows <= s.scroll_offset_v <= s.last_scrollable_row() ==> s.nav_v_offset(
            TatNavVertical::UpParagraph,
        ) == s.scroll_offset_v - s.visible_rows,
        s.scroll_offset_v + s.visible_rows <= s.last_scrollable_row() ==> (ParagraphState {
            scroll_offset_v: s.nav_v_offset(TatNavVertical::DownParagraph),
            ..s
        }).nav_v_offset(TatNavVertical::UpParagraph) == s.scroll_offset_v,
{
}

} // verus!
