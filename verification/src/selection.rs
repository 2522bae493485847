use vstd::prelude::*;
use ratatui::widgets::ListState;

verus! {

/// The selected row of a list or table, and the first row on screen.
#[derive(Debug, Clone, Copy, PartialEq, Eq, Structural)]
pub struct SelectionState {
    pub offset: usize,
    pub selected: Option<usize>,
}

/// The selection that moving down a list gives, before the list is drawn:
/// one further (no further than `usize::MAX`), or the first row when none
/// is selected.
pub open spec fn spec_step_down(selected: Option<usize>) -> Option<usize> {
    match selected {
        None => Some(0),
        Some(i) => Some(if i == usize::MAX { i } else { (i + 1) as usize }),
    }
}

/// The selection that moving up a list gives, before the list is drawn:
/// one back (no further back than 0), or `usize::MAX` when none is selected.
pub open spec fn spec_step_up(selected: Option<usize>) -> Option<usize> {
    match selected {
        None => Some(usize::MAX),
        Some(i) => Some(if i == 0 { 0 } else { (i - 1) as usize }),
    }
}

/// `ListState::select_next` of ratatui, on a state with the given offset
/// and selection: the offset stays, the selection becomes
/// `selected.map_or(0, |i| i.saturating_add(1))`.
#[verifier::external_body]
fn list_state_select_next(offset: usize, selected: Option<usize>) -> (r: (usize, Option<usize>))
    ensures
        r == (offset, spec_step_down(selected)),
{
    let mut state = ListState::default().with_offset(offset).with_selected(selected);
    state.select_next();
    (state.offset(), state.selected())
}

/// `ListState::select_previous` of ratatui, on a state with the given
/// offset and selection: the offset stays, the selection becomes
/// `selected.map_or(usize::MAX, |i| i.saturating_sub(1))`.
#[verifier::external_body]
fn list_state_select_previous(offset: usize, selected: Option<usize>) -> (r: (
    usize,
    Option<usize>,
))
    ensures
        r == (offset, spec_step_up(selected)),
{
    let mut state = ListState::default().with_offset(offset).with_selected(selected);
    state.select_previous();
    (state.offset(), state.selected())
}

impl SelectionState {
    /// No row selected, the list shown from its first row.
    pub fn default() -> (r: Self)
        ensures
            r.offset == 0,
            r.selected is None,
    {
        SelectionState { offset: 0, selected: None }
    }

    /// The selected row, if any.
    pub fn selected(&self) -> (r: Option<usize>)
        ensures
            r == self.selected,
    {
        self.selected
    }

    /// The first row on screen.
    pub fn offset(&self) -> (r: usize)
        ensures
            r == self.offset,
    {
        self.offset
    }

    /// Selects a row, or none; selecting none also scrolls back to the top.
    pub fn select(&mut self, index: Option<usize>)
        ensures
            final(self).selected == index,
            final(self).offset == (if index is None { 0 } else { old(self).offset }),
    {
        self.selected = index;
        if index.is_none() {
            self.offset = 0;
        }
    }

    /// Moves the selection one row down, without knowing the number of rows.
    pub fn select_next(&mut self)
        ensures
            final(self).selected == spec_step_down(old(self).selected),
            final(self).offset == old(self).offset,
    {
        let (offset, selected) = list_state_select_next(self.offset, self.selected);
        self.offset = offset;
        self.selected = selected;
    }

    /// Moves the selection one row up, without knowing the number of rows.
    pub fn select_previous(&mut self)
        ensures
            final(self).selected == spec_step_up(old(self).selected),
            final(self).offset == old(self).offset,
    {
        let (offset, selected) = list_state_select_previous(self.offset, self.selected);
        self.offset = offset;
        self.selected = selected;
    }
}

} // verus!
