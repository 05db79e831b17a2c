//! A list of items with a cursor, kept in a ratatui `ListState` so that the
//! display can highlight and scroll to the selected entry.

use vstd::prelude::*;
use ratatui::widgets::ListState;

verus! {

/// ratatui's `ListState`, declared so that it can stand in fields and
/// signatures; the library reads it only through the wrappers below.
#[verifier::external_type_specification]
#[verifier::external_body]
pub struct ExListState(ListState);

/// The selection that a ratatui `ListState` holds.
pub uninterp spec fn selection(s: ListState) -> Option<usize>;

/// Relies on ratatui's `ListState::selected`: returns the stored selection.
pub assume_specification[ ListState::selected ](s: &ListState) -> (r: Option<usize>)
    ensures
        r == selection(*s),
;

/// Relies on ratatui's `ListState::select`: stores the given selection.
pub assume_specification[ ListState::select ](s: &mut ListState, index: Option<usize>)
    ensures
        selection(*final(s)) == index,
;

/// Relies on ratatui's `ListState::with_selected`: replaces the selection.
pub assume_specification[ ListState::with_selected ](
    s: ListState,
    index: Option<usize>,
) -> (r: ListState)
    ensures
        selection(r) == index,
;

/// Relies on ratatui's derived `Default` for `ListState`: no selection at first.
pub assume_specification[ <ListState as core::default::Default>::default ]() -> (r: ListState)
    ensures
        selection(r) == None::<usize>,
;

/// The index one step down from `cur` in a list of `len` items, wrapping to
/// the top past the last item; the top when nothing is selected.
pub open spec fn wrap_next(cur: Option<usize>, len: usize) -> usize {
    match cur {
        Some(i) => if i + 1 >= len {
            0usize
        } else {
            (i + 1) as usize
        },
        None => 0usize,
    }
}

/// The index one step up from `cur` in a list of `len` items, wrapping to the
/// bottom past the first item; the top when nothing is selected.
pub open spec fn wrap_previous(cur: Option<usize>, len: usize) -> usize {
    match cur {
        Some(i) => if i == 0 {
            (len - 1) as usize
        } else {
            (i - 1) as usize
        },
        None => 0usize,
    }
}

/// A list of items together with the display's selection state.
pub struct StatefulList<T> {
    pub state: ListState,
    pub items: Vec<T>,
}

impl<T> StatefulList<T> {
    /// A list with the first item selected (also when `items` is empty: the
    /// selection then points past the end, as the display expects).
    pub fn new(items: Vec<T>) -> (r: Self)
        ensures
            selection(r.state) == Some(0usize),
            r.items == items,
    {
        Self { state: ListState::default().with_selected(Some(0)), items }
    }

    /// Select the next item, wrapping around, and return it.
    pub fn next(&mut self) -> (r: &T)
        requires
            old(self).items.len() > 0,
        ensures
            final(self).items == old(self).items,
            selection(final(self).state) == Some(
                wrap_next(selection(old(self).state), old(self).items.len()),
            ),
            *r == old(self).items@[wrap_next(selection(old(self).state), old(self).items.len()) as int],
    {
        let i: usize = match self.state.selected() {
            Some(i) => {
                if i >= self.items.len() - 1 {
                    0
                } else {
                    i + 1
                }
            },
            None => 0,
        };
        self.state.select(Some(i));
        &self.items[i]
    }

    /// Select the previous item, wrapping around, and return it.
    pub fn previous(&mut self) -> (r: &T)
        requires
            old(self).items.len() > 0,
            (selection(old(self).state) matches Some(i) ==> i < old(self).items.len()),
        ensures
            final(self).items == old(self).items,
            selection(final(self).state) == Some(
                wrap_previous(selection(old(self).state), old(self).items.len()),
            ),
            *r == old(self).items@[wrap_previous(selection(old(self).state), old(self).items.len()) as int],
    {
        let i: usize = match self.state.selected() {
            Some(i) => {
                if i == 0 {
                    self.items.len() - 1
                } else {
                    i - 1
                }
            },
            None => 0,
        };
        self.state.select(Some(i));
        &self.items[i]
    }
}

} // verus!
