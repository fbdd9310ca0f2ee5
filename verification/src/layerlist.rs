use vstd::prelude::*;

use crate::navparagraph::{ParagraphState, TatNavigableParagraph};
use crate::table::{saturating_sub, TatScrollbar};
use crate::types::{TatNavHorizontal, TatNavVertical};

verus! {

/// A layer's name and the displayable information about it
pub type TatLayerInfo = (String, TatNavigableParagraph);

/// What the layer list holds
pub struct LayerListState {
    pub selected: Option<usize>,
    pub scroll: TatScrollbar,
    pub names: Seq<Seq<char>>,
    pub infos: Seq<ParagraphState>,
    pub available_rows: usize,
}

/// `i + n`, staying at the largest `usize`
pub open spec fn saturating_add(i: int, n: int) -> usize {
    if i + n > usize::MAX {
        usize::MAX
    } else {
        (i + n) as usize
    }
}

impl LayerListState {
    /// The selected position, counting no selection as the first
    pub open spec fn selected_or_first(self) -> int {
        match self.selected {
            Some(i) => i as int,
            None => 0,
        }
    }

    /// The position selected after one navigation step
    pub open spec fn nav_selection(self, conf: TatNavVertical) -> usize {
        let sel = self.selected_or_first();
        let rows = self.available_rows as u16;
        match conf {
            TatNavVertical::First => 0,
            TatNavVertical::Last => (self.names.len() - 1) as usize,
            TatNavVertical::DownOne => saturating_add(sel, 1),
            TatNavVertical::UpOne => saturating_sub(sel, 1) as usize,
            TatNavVertical::DownHalfParagraph => saturating_add(sel, (rows / 2) as int),
            TatNavVertical::UpHalfParagraph => saturating_sub(sel, (rows / 2) as int) as usize,
            TatNavVertical::DownParagraph => saturating_add(sel, rows as int),
            TatNavVertical::UpParagraph => saturating_sub(sel, rows as int) as usize,
            TatNavVertical::MouseScrollDown => saturating_add(sel, (rows / 3) as int),
            TatNavVertical::MouseScrollUp => saturating_sub(sel, (rows / 3) as int) as usize,
            TatNavVertical::Specific(row) => row as usize,
        }
    }

    /// The selected layer: none when there is no selection or no layer, the last one when the
    /// selection is past the end
    pub open spec fn layer_index(self) -> Option<usize> {
        match self.selected {
            None => None,
            Some(i) => if self.names.len() == 0 {
                None
            } else if i >= self.names.len() {
                Some((self.names.len() - 1) as usize)
            } else {
                Some(i)
            },
        }
    }

    /// Whether the selection points at a layer's information
    pub open spec fn has_current_info(self) -> bool {
        self.selected matches Some(i) && i < self.infos.len()
    }

    /// The information about the selected layer
    pub open spec fn current_info(self) -> ParagraphState {
        self.infos[self.selected.unwrap() as int]
    }

    /// The state with the information about the selected layer replaced
    pub open spec fn with_current_info(self, p: ParagraphState) -> LayerListState {
        LayerListState { infos: self.infos.update(self.selected.unwrap() as int, p), ..self }
    }

    /// The state after one navigation step through the list: the new position is selected and
    /// the scrollbar follows it
    pub open spec fn after_nav(self, conf: TatNavVertical) -> LayerListState {
        LayerListState {
            selected: Some(self.nav_selection(conf)),
            scroll: TatScrollbar { position: self.nav_selection(conf), ..self.scroll },
            ..self
        }
    }

    /// Whether scrolling the information about the selected layer vertically stays within the
    /// arithmetic of its paragraph
    pub open spec fn info_nav_v_in_range(self, conf: TatNavVertical) -> bool {
        self.has_current_info() ==> {
            &&& self.current_info().vertical_sizes_in_range()
            &&& !(conf is Specific) || self.current_info().fits_vertically()
        }
    }

    /// The state after scrolling the information about the selected layer vertically
    pub open spec fn after_info_nav_v(self, conf: TatNavVertical) -> LayerListState {
        if self.has_current_info() {
            self.with_current_info(
                ParagraphState {
                    scroll_offset_v: self.current_info().nav_v_offset(conf),
                    ..self.current_info()
                },
            )
        } else {
            self
        }
    }

    /// The state after scrolling the information about the selected layer horizontally
    pub open spec fn after_info_nav_h(self, conf: TatNavHorizontal) -> LayerListState {
        if self.has_current_info() {
            self.with_current_info(
                ParagraphState {
                    scroll_offset_h: self.current_info().nav_h_offset(conf),
                    ..self.current_info()
                },
            )
        } else {
            self
        }
    }
}

/// The selected layer is always one of the layers: there is one whenever the list has layers and
/// a position is selected, and it is within the list.
pub proof fn law_layer_index_is_a_layer(s: LayerListState)
    ensures
        s.layer_index() matches Some(i) ==> i < s.names.len(),
        s.names.len() > 0 && s.selected is Some ==> s.layer_index() is Some,
{
}

/// Navigating the list always leaves a position selected, and going to the first layer selects
/// the first position.
pub proof fn law_nav_selects_a_position(s: LayerListState, conf: TatNavVertical)
    ensures
        s.after_nav(conf).selected is Some,
        s.after_nav(TatNavVertical::First).selected == Some(0usize),
        s.after_nav(conf).names == s.names,
        s.after_nav(conf).infos == s.infos,
{
}

/// A widget which displays the layers in the opened dataset and holds displayable information
/// about them
pub struct TatLayerList {
    selected: Option<usize>,
    scroll: TatScrollbar,
    layer_infos: Vec<TatLayerInfo>,
    available_rows: usize,
}

impl View for TatLayerList {
    type V = LayerListState;

    closed spec fn view(&self) -> LayerListState {
        LayerListState {
            selected: self.selected,
            scroll: self.scroll,
            names: self.layer_infos@.map_values(|info: TatLayerInfo| info.0@),
            infos: self.layer_infos@.map_values(|info: TatLayerInfo| info.1@),
            available_rows: self.available_rows,
        }
    }
}

impl TatLayerList {
    /// Constructs new widget
    pub fn new() -> (l: Self)
        ensures
            l@.selected == Some(0usize),
            l@.scroll == (TatScrollbar { content_length: 0, position: 0 }),
            l@.names.len() == 0,
            l@.infos.len() == 0,
            l@.available_rows == 0,
    {
        Self {
            selected: Some(0),
            scroll: TatScrollbar { content_length: 0, position: 0 },
            layer_infos: Vec::new(),
            available_rows: 0,
        }
    }

    /// Sets the information about the dataset's layers
    pub fn set_infos(&mut self, infos: Vec<TatLayerInfo>)
        ensures
            final(self)@ == (LayerListState {
                names: infos@.map_values(|info: TatLayerInfo| info.0@),
                infos: infos@.map_values(|info: TatLayerInfo| info.1@),
                ..old(self)@
            }),
    {
        self.layer_infos = infos;
    }

    /// Returns the layers' names and information
    pub fn layer_infos(&self) -> (r: &[TatLayerInfo])
        ensures
            r@.map_values(|info: TatLayerInfo| info.0@) == self@.names,
            r@.map_values(|info: TatLayerInfo| info.1@) == self@.infos,
    {
        self.layer_infos.as_slice()
    }

    /// Returns the selected position in the list, which may be past the last layer
    pub fn selected(&self) -> (r: Option<usize>)
        ensures
            r == self@.selected,
    {
        self.selected
    }

    /// Returns the state of the list's scrollbar
    pub fn scroll(&self) -> (r: TatScrollbar)
        ensures
            r == self@.scroll,
    {
        self.scroll
    }

    /// Returns the displayable layer information as a navigable paragraph based on the currently
    /// selected layer
    pub fn current_layer_info_paragraph(&self) -> (r: Option<&TatNavigableParagraph>)
        ensures
            r is Some <==> self@.has_current_info(),
            r is Some ==> r->0@ == self@.current_info(),
    {
        match self.selected {
            Some(i) => if i < self.layer_infos.len() {
                Some(&self.layer_infos[i].1)
            } else {
                None
            },
            None => None,
        }
    }

    /// Scrolls the information about the selected layer vertically (if there is any)
    pub fn nav_current_info_v(&mut self, conf: TatNavVertical)
        requires
            old(self)@.info_nav_v_in_range(conf),
        ensures
            final(self)@ == old(self)@.after_info_nav_v(conf),
    {
        if let Some(i) = self.selected {
            if i < self.layer_infos.len() {
                self.layer_infos[i].1.nav_v(conf);
                proof {
                    assert(self@.infos =~= old(self)@.infos.update(i as int, self.layer_infos@[i as int].1@));
                    assert(self@.names =~= old(self)@.names);
                }
            }
        }
    }

    /// Scrolls the information about the selected layer horizontally (if there is any)
    pub fn nav_current_info_h(&mut self, conf: TatNavHorizontal)
        ensures
            final(self)@ == old(self)@.after_info_nav_h(conf),
    {
        if let Some(i) = self.selected {
            if i < self.layer_infos.len() {
                self.layer_infos[i].1.nav_h(conf);
                proof {
                    assert(self@.infos =~= old(self)@.infos.update(i as int, self.layer_infos@[i as int].1@));
                    assert(self@.names =~= old(self)@.names);
                }
            }
        }
    }

    /// Tells the information about the selected layer (if there is any) how many rows and
    /// columns it is shown in
    pub fn set_current_info_visible_area(&mut self, rows: usize, cols: usize)
        ensures
            final(self)@ == if old(self)@.has_current_info() {
                old(self)@.with_current_info(
                    ParagraphState {
                        visible_rows: rows,
                        visible_cols: cols,
                        ..old(self)@.current_info()
                    },
                )
            } else {
                old(self)@
            },
    {
        if let Some(i) = self.selected {
            if i < self.layer_infos.len() {
                self.layer_infos[i].1.set_visible_rows(rows);
                self.layer_infos[i].1.set_visible_cols(cols);
                proof {
                    assert(self@.infos =~= old(self)@.infos.update(i as int, self.layer_infos@[i as int].1@));
                    assert(self@.names =~= old(self)@.names);
                }
            }
        }
    }

    /// Handles navigation of the list
    pub fn nav(&mut self, conf: TatNavVertical)
        requires
            conf is Last ==> old(self)@.names.len() > 0,
        ensures
            final(self)@ == old(self)@.after_nav(conf),
    {
        let sel = match self.selected {
            Some(s) => s,
            None => 0,
        };
        let rows = self.available_rows as u16;
        let next = match conf {
            TatNavVertical::First => 0,
            TatNavVertical::Last => self.layer_infos.len() - 1,
            TatNavVertical::DownOne => sel.saturating_add(1),
            TatNavVertical::UpOne => sel.saturating_sub(1),
            TatNavVertical::DownHalfParagraph => sel.saturating_add((rows / 2) as usize),
            TatNavVertical::UpHalfParagraph => sel.saturating_sub((rows / 2) as usize),
            TatNavVertical::DownParagraph => sel.saturating_add(rows as usize),
            TatNavVertical::UpParagraph => sel.saturating_sub(rows as usize),
            TatNavVertical::MouseScrollDown => sel.saturating_add((rows / 3) as usize),
            TatNavVertical::MouseScrollUp => sel.saturating_sub((rows / 3) as usize),
            TatNavVertical::Specific(row) => row as usize,
        };
        self.selected = Some(next);
        self.update_scrollbar();
    }

    /// Returns the index of the currently selected layer
    pub fn layer_index(&self) -> (r: Option<usize>)
        ensures
            r == self@.layer_index(),
    {
        let i = match self.selected {
            Some(i) => i,
            None => return None,
        };
        if self.layer_infos.len() == 0 {
            return None;
        }
        if i >= self.layer_infos.len() {
            return Some(self.layer_infos.len() - 1);
        }
        Some(i)
    }

    /// Updates the state of the scrollbar. Should be called anytime navigation of the list
    /// happens.
    fn update_scrollbar(&mut self)
        requires
            old(self)@.selected is Some,
        ensures
            final(self)@ == (LayerListState {
                scroll: TatScrollbar {
                    position: old(self)@.selected.unwrap(),
                    ..old(self)@.scroll
                },
                ..old(self)@
            }),
    {
        match self.selected {
            Some(s) => {
                self.scroll = TatScrollbar { position: s, ..self.scroll };
            },
            None => {},
        }
    }

    /// Sets the available rows for displaying layers
    pub fn set_available_rows(&mut self, available_rows: usize)
        ensures
            final(self)@ == (LayerListState { available_rows, ..old(self)@ }),
    {
        self.available_rows = available_rows;
    }

    /// Fits the list into an area of the given height: the rows inside its borders are available
    /// for layers
    pub fn fit_to_height(&mut self, height: u16)
        ensures
            final(self)@ == (LayerListState {
                available_rows: if height >= 2 {
                    (height - 2) as usize
                } else {
                    0
                },
                ..old(self)@
            }),
    {
        if height >= 2 {
            self.available_rows = (height - 2) as usize;
        } else {
            self.available_rows = 0;
        }
    }

    /// Whether there are more layers than rows to show them, so that the list needs a scrollbar
    pub fn needs_scrollbar(&self) -> (r: bool)
        ensures
            r == (self@.names.len() > self@.available_rows),
    {
        self.layer_infos.len() > self.available_rows
    }

    /// Returns the available rows for displaying layers
    pub fn available_rows(&self) -> (r: usize)
        ensures
            r == self@.available_rows,
    {
        self.available_rows
    }
}


/// One step through the list moves the selection by exactly one position: up from a position
/// `p > 0` selects `p - 1`, down selects `p + 1`, so a step down and a step up (or up and down)
/// return to the same position, and within the list the selected layer follows.
pub proof fn law_list_steps_move_by_one(s: LayerListState, p: usize)
    requires
        s.selected == Some(p),
    ensures
        p > 0 ==> s.after_nav(TatNavVertical::UpOne).selected == Some((p - 1) as usize),
        p < usize::MAX ==> s.after_nav(TatNavVertical::DownOne).selected == Some((p + 1) as usize),
        p < usize::MAX ==> s.after_nav(TatNavVertical::DownOne).after_nav(
            TatNavVertical::UpOne,
        ).selected == s.selected,
        p > 0 ==> s.after_nav(TatNavVertical::UpOne).after_nav(TatNavVertical::DownOne).selected
            == s.selected,
        0 < p < s.names.len() ==> s.after_nav(TatNavVertical::UpOne).layer_index() == Some(
            (p - 1) as usize,
        ),
        p < usize::MAX && p + 1 < s.names.len() ==> s.after_nav(TatNavVertical::DownOne).layer_index() == Some(
            (p + 1) as usize,
        ),
{
}


/// The larger steps through the list move the selection by the rows it shows: a page of
/// `available_rows`, half of them, a third of them (the mouse wheel), staying at the first
/// position at the top; the first and last steps go to the first and the last layer.
pub proof fn law_list_page_steps(s: LayerListState, p: usize)
    requires
        s.selected == Some(p),
        s.available_rows <= u16::MAX,
    ensures
        p + s.available_rows <= usize::MAX ==> s.after_nav(TatNavVertical::DownParagraph).selected
            == Some((p + s.available_rows) as usize),
        s.after_nav(TatNavVertical::UpParagraph).selected == Some(
            (if p >= s.available_rows {
                p - s.available_rows
            } else {
                0
            }) as usize,
        ),
        p + s.available_rows / 2 <= usize::MAX ==> s.after_nav(
            TatNavVertical::DownHalfParagraph,
        ).selected == Some((p + s.available_rows / 2) as usize),
        s.after_nav(TatNavVertical::UpHalfParagraph).selected == Some(
            (if p >= s.available_rows / 2 {
                p - s.available_rows / 2
            } else {
                0
            }) as usize,
        ),
        p + s.available_rows / 3 <= usize::MAX ==> s.after_nav(
            TatNavVertical::MouseScrollDown,
        ).selected == Some((p + s.available_rows / 3) as usize),
        s.after_nav(TatNavVertical::First).layer_index() == (if s.names.len() > 0 {
            Some(0usize)
        } else {
            None
        }),
        0 < s.names.len() <= usize::MAX ==> s.after_nav(TatNavVertical::Last).layer_index()
            == Some((s.names.len() - 1) as usize),
{
}

} // verus!
