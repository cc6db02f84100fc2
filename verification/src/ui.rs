//! The base UI's state: the listing it shows and the selection the input
//! thread moves.
//!
//! Widget construction and drawing live outside this crate; the UI state
//! here decides exactly how key input moves the selection.

use vstd::prelude::*;

use crate::events::EventEnum;
use crate::page::{spec_next_selection, spec_prev_selection};

verus! {

/// Which UI is active (only the base UI exists).
#[derive(Clone, Copy, Debug, Default, PartialEq, Eq, PartialOrd, Ord, Structural)]
pub enum UiState {
    #[default]
    BaseUi,
}

/// The base UI: a listing of file names and the selected row.
#[derive(Clone, Debug)]
pub struct BaseUi {
    list_items: Vec<String>,
    selected: Option<usize>,
}

impl BaseUi {
    pub closed spec fn spec_items(&self) -> Seq<String> {
        self.list_items@
    }

    pub closed spec fn spec_selected(&self) -> Option<usize> {
        self.selected
    }

    /// Shows the given listing (gathered by the surrounding application's
    /// directory walk) with the first row selected.
    pub fn new(items: Vec<String>) -> (u: BaseUi)
        ensures
            u.spec_items() == items@,
            u.spec_selected() == Some(0usize),
    {
        BaseUi { list_items: items, selected: Some(0) }
    }

    /// The displayed file names.
    pub fn items(&self) -> (v: &Vec<String>)
        ensures
            v@ == self.spec_items(),
    {
        &self.list_items
    }

    /// The selected row, if any.
    pub fn selected(&self) -> (s: Option<usize>)
        ensures
            s == self.spec_selected(),
    {
        self.selected
    }

    /// Selects the next row, wrapping to the top past the end; does
    /// nothing while the listing is empty.
    pub fn next(&mut self)
        ensures
            final(self).spec_items() == old(self).spec_items(),
            final(self).spec_selected() == spec_next_selection(
                old(self).spec_selected(),
                old(self).spec_items().len(),
            ),
    {
        if self.list_items.is_empty() {
            return;
        }
        let i: usize = match self.selected {
            Some(i) => if i >= self.list_items.len() - 1 {
                0
            } else {
                i + 1
            },
            None => 0,
        };
        self.selected = Some(i);
    }

    /// Selects the previous row, wrapping to the bottom past the top;
    /// does nothing while the listing is empty.
    pub fn prev(&mut self)
        ensures
            final(self).spec_items() == old(self).spec_items(),
            final(self).spec_selected() == spec_prev_selection(
                old(self).spec_selected(),
                old(self).spec_items().len(),
            ),
    {
        if self.list_items.is_empty() {
            return;
        }
        let i: usize = match self.selected {
            Some(i) => if i == 0 {
                self.list_items.len() - 1
            } else {
                i - 1
            },
            None => 0,
        };
        self.selected = Some(i);
    }

    /// Clears the selection.
    pub fn unselect(&mut self)
        ensures
            final(self).spec_items() == old(self).spec_items(),
            final(self).spec_selected() is None,
    {
        self.selected = None;
    }

    /// Routes one input event: `k` moves up, `j` moves down, `u` clears
    /// the selection; anything else (including key releases) changes
    /// nothing.
    pub fn update(&mut self, state: Option<EventEnum>)
        ensures
            final(self).spec_items() == old(self).spec_items(),
            final(self).spec_selected() == (match state {
                Some(EventEnum::Input(key)) => if key.pressed && key.code == 'k' {
                    spec_prev_selection(old(self).spec_selected(), old(self).spec_items().len())
                } else if key.pressed && key.code == 'j' {
                    spec_next_selection(old(self).spec_selected(), old(self).spec_items().len())
                } else if key.pressed && key.code == 'u' {
                    None
                } else {
                    old(self).spec_selected()
                },
                None => old(self).spec_selected(),
            }),
    {
        if let Some(EventEnum::Input(key)) = state {
            if key.pressed && key.code == 'k' {
                self.prev();
            } else if key.pressed && key.code == 'j' {
                self.next();
            } else if key.pressed && key.code == 'u' {
                self.unselect();
            }
        }
    }
}

/// The main UI: dispatches to whichever UI state is active.
#[derive(Clone, Debug)]
pub struct Ui {
    ui_state: UiState,
    base_ui: BaseUi,
}

impl Ui {
    pub closed spec fn spec_ui_state(&self) -> UiState {
        self.ui_state
    }

    pub closed spec fn spec_base_items(&self) -> Seq<String> {
        self.base_ui.spec_items()
    }

    pub closed spec fn spec_base_selected(&self) -> Option<usize> {
        self.base_ui.spec_selected()
    }

    /// Starts in the base UI, showing the given listing.
    pub fn new(items: Vec<String>) -> (u: Ui)
        ensures
            u.spec_ui_state() is BaseUi,
            u.spec_base_items() == items@,
            u.spec_base_selected() == Some(0usize),
    {
        Ui { ui_state: UiState::BaseUi, base_ui: BaseUi::new(items) }
    }

    pub fn ui_state(&self) -> (s: UiState)
        ensures
            s == self.spec_ui_state(),
    {
        self.ui_state
    }

    /// The active UI's selected row, if any.
    pub fn base_selected(&self) -> (s: Option<usize>)
        ensures
            s == self.spec_base_selected(),
    {
        self.base_ui.selected()
    }

    /// Routes one input event to the active UI.
    pub fn update(&mut self, state: Option<EventEnum>)
        ensures
            final(self).spec_ui_state() == old(self).spec_ui_state(),
            final(self).spec_base_items() == old(self).spec_base_items(),
            final(self).spec_base_selected() == (match state {
                Some(EventEnum::Input(key)) => if key.pressed && key.code == 'k' {
                    spec_prev_selection(
                        old(self).spec_base_selected(),
                        old(self).spec_base_items().len(),
                    )
                } else if key.pressed && key.code == 'j' {
                    spec_next_selection(
                        old(self).spec_base_selected(),
                        old(self).spec_base_items().len(),
                    )
                } else if key.pressed && key.code == 'u' {
                    None
                } else {
                    old(self).spec_base_selected()
                },
                None => old(self).spec_base_selected(),
            }),
    {
        match self.ui_state {
            UiState::BaseUi => self.base_ui.update(state),
        }
    }
}

} // verus!
