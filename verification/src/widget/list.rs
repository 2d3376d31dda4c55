//! A list of items together with the selection that the interface moves.

use vstd::prelude::*;

verus! {

/// Selection state of a list widget.
#[derive(Clone, Copy, Debug, PartialEq, Eq, Structural)]
pub struct ListState {
    /// Index of the first item that is drawn.
    pub offset: usize,
    /// Index of the selected item, if any.
    pub selected: Option<usize>,
}

impl Default for ListState {
    fn default() -> (r: Self)
        ensures
            r == (ListState { offset: 0, selected: None }),
    {
        ListState { offset: 0, selected: None }
    }
}

impl ListState {
    /// Returns the index of the selected item.
    pub fn selected(&self) -> (r: Option<usize>)
        ensures
            r == self.selected,
    {
        self.selected
    }

    /// Sets the selected index; clearing the selection also resets the
    /// drawing offset.
    pub fn select(&mut self, index: Option<usize>)
        ensures
            final(self).selected == index,
            final(self).offset == if index is None {
                0
            } else {
                old(self).offset
            },
    {
        self.selected = index;
        if index.is_none() {
            self.offset = 0;
        }
    }
}

/// The index that follows `selected` in a sequence of `len` items:
/// the next one, the first after the last, and the first where nothing
/// was selected.
pub open spec fn next_index(selected: Option<usize>, len: nat) -> usize {
    match selected {
        Some(i) => if len == 0 || i >= len - 1 {
            0
        } else {
            (i + 1) as usize
        },
        None => 0,
    }
}

/// The index that precedes `selected` in a sequence of `len` items:
/// the one before, the last before the first, and the first where nothing
/// was selected.
pub open spec fn previous_index(selected: Option<usize>, len: nat) -> usize {
    match selected {
        Some(i) => if i == 0 {
            if len == 0 {
                0
            } else {
                (len - 1) as usize
            }
        } else {
            (i - 1) as usize
        },
        None => 0,
    }
}

/// List widget with TUI controlled states.
pub struct StatefulList<T> {
    /// List items (states).
    pub items: Vec<T>,
    /// State that can be modified by TUI.
    pub state: ListState,
}

impl<T> StatefulList<T> {
    /// Constructs a new instance of `StatefulList`.
    pub fn new(items: Vec<T>, state: ListState) -> (list: StatefulList<T>)
        ensures
            list.items == items,
            list.state == state,
    {
        Self { items, state }
    }

    /// Construct a new `StatefulList` with given items.
    pub fn with_items(items: Vec<T>) -> (list: StatefulList<T>)
        ensures
            list.items == items,
            list.state == (ListState { offset: 0, selected: None }),
    {
        Self::new(items, ListState::default())
    }

    /// Returns the selected item.
    pub fn selected(&self) -> (r: Option<&T>)
        ensures
            match self.state.selected {
                Some(i) if i < self.items.len() => r == Some(&self.items@[i as int]),
                _ => r is None,
            },
    {
        match self.state.selected() {
            Some(i) => if i < self.items.len() {
                Some(&self.items[i])
            } else {
                None
            },
            None => None,
        }
    }

    /// Select the next item.
    pub fn next(&mut self)
        ensures
            final(self).items == old(self).items,
            final(self).state.selected == Some(
                next_index(old(self).state.selected, old(self).items.len() as nat),
            ),
            final(self).state.offset == old(self).state.offset,
    {
        let i: usize = match self.state.selected() {
            Some(i) => {
                if self.items.len() == 0 || i >= self.items.len() - 1 {
                    0
                } else {
                    i + 1
                }
            },
            None => 0,
        };
        self.state.select(Some(i));
    }

    /// Select the previous item.
    pub fn previous(&mut self)
        ensures
            final(self).items == old(self).items,
            final(self).state.selected == Some(
                previous_index(old(self).state.selected, old(self).items.len() as nat),
            ),
            final(self).state.offset == old(self).state.offset,
    {
        let i: usize = match self.state.selected() {
            Some(i) => {
                if i == 0 {
                    if self.items.len() == 0 {
                        0
                    } else {
                        self.items.len() - 1
                    }
                } else {
                    i - 1
                }
            },
            None => 0,
        };
        self.state.select(Some(i));
    }
}

/// Moving forward from the last item selects the first, moving back from
/// the first selects the last, and the new selection always lies inside a
/// sequence that is not empty.
pub proof fn lemma_selection_wraps(selected: Option<usize>, len: nat)
    requires
        len > 0,
        len <= usize::MAX,
    ensures
        selected == Some((len - 1) as usize) ==> next_index(selected, len) == 0,
        selected == Some(0usize) ==> previous_index(selected, len) == len - 1,
        next_index(selected, len) < len,
        selected matches Some(i) && i < len ==> previous_index(selected, len) < len,
{
}

} // verus!
