//! A table of items with its selection, its scroll offsets and the full
//! set of items that a search filter narrows.

use crate::widget::list::{next_index, previous_index};
use crate::widget::row::{ScrollAmount, ScrollDirection};
use vstd::prelude::*;

verus! {

/// Selection state of a table widget.
#[derive(Clone, Copy, Debug, PartialEq, Eq, Structural)]
pub struct TuiState {
    /// Index of the first row that is drawn.
    pub offset: usize,
    /// Index of the selected row, if any.
    pub selected: Option<usize>,
}

impl Default for TuiState {
    fn default() -> (r: Self)
        ensures
            r == (TuiState { offset: 0, selected: None }),
    {
        TuiState { offset: 0, selected: None }
    }
}

impl TuiState {
    /// Returns the index of the selected row.
    pub fn selected(&self) -> (r: Option<usize>)
        ensures
            r == self.selected,
    {
        self.selected
    }

    /// Sets the selected index; clearing the selection also resets the
    /// drawing offset.
    pub fn select(&mut self, index: Option<usize>)
        ensures
            final(self).selected == index,
            final(self).offset == if index is None {
                0
            } else {
                old(self).offset
            },
    {
        self.selected = index;
        if index.is_none() {
            self.offset = 0;
        }
    }
}

/// Size of the table.
#[derive(Clone, Copy, Debug, PartialEq, Eq, Structural)]
pub enum TableSize {
    /// Normal size.
    Normal,
    /// Compact size: the first column is shortened.
    Compact,
    /// Minimized size: both columns are shortened.
    Minimized,
}

impl Default for TableSize {
    fn default() -> (r: Self)
        ensures
            r == TableSize::Normal,
    {
        TableSize::Normal
    }
}

impl TableSize {
    /// Sets the size to minimized, or back to normal where it was
    /// minimized.
    pub fn set_minimized(&mut self, is_minimized: bool)
        ensures
            *final(self) == if is_minimized {
                TableSize::Minimized
            } else if *old(self) == TableSize::Minimized {
                TableSize::Normal
            } else {
                *old(self)
            },
    {
        if is_minimized {
            *self = TableSize::Minimized;
        } else if *self == TableSize::Minimized {
            *self = TableSize::Normal;
        }
    }

    /// Returns the next size.
    pub fn next(&self) -> (r: Self)
        ensures
            r == match *self {
                TableSize::Normal => TableSize::Compact,
                TableSize::Compact => TableSize::Minimized,
                TableSize::Minimized => TableSize::Normal,
            },
    {
        match self {
            TableSize::Normal => TableSize::Compact,
            TableSize::Compact => TableSize::Minimized,
            TableSize::Minimized => TableSize::Normal,
        }
    }

    /// The lower-case name of the size.
    pub fn name(&self) -> (r: &'static str)
        ensures
            r@ == match *self {
                TableSize::Normal => "normal"@,
                TableSize::Compact => "compact"@,
                TableSize::Minimized => "minimized"@,
            },
    {
        match self {
            TableSize::Normal => "normal",
            TableSize::Compact => "compact",
            TableSize::Minimized => "minimized",
        }
    }
}

/// Width below which a table is minimized when nothing else was set.
pub const DEFAULT_MINIMIZE_THRESHOLD: u16 = 90;

/// State of the table widget.
#[derive(Clone, Copy, Debug, PartialEq, Eq, Structural)]
pub struct TableState {
    /// State that can be modified by TUI.
    pub tui: TuiState,
    /// Scroll amount of the table.
    pub scroll: ScrollAmount,
    /// Size of the table.
    pub size: TableSize,
    /// Threshold value (width) for minimizing.
    pub minimize_threshold: u16,
}

impl Default for TableState {
    fn default() -> (r: Self)
        ensures
            r == (TableState {
                tui: TuiState { offset: 0, selected: None },
                scroll: ScrollAmount { vertical: 0, horizontal: 0 },
                size: TableSize::Normal,
                minimize_threshold: DEFAULT_MINIMIZE_THRESHOLD,
            }),
    {
        TableState {
            tui: TuiState::default(),
            scroll: ScrollAmount::default(),
            size: TableSize::default(),
            minimize_threshold: DEFAULT_MINIMIZE_THRESHOLD,
        }
    }
}

/// The scroll offsets after a row scroll: up and left stop at zero, down
/// and right keep the old offset where the new one would not fit.
pub open spec fn scrolled(scroll: ScrollAmount, direction: ScrollDirection) -> ScrollAmount {
    match direction {
        ScrollDirection::Up(value) => ScrollAmount {
            vertical: if value <= scroll.vertical {
                (scroll.vertical - value) as u16
            } else {
                0
            },
            horizontal: scroll.horizontal,
        },
        ScrollDirection::Right(value) => ScrollAmount {
            vertical: scroll.vertical,
            horizontal: if scroll.horizontal + value <= u16::MAX {
                (scroll.horizontal + value) as u16
            } else {
                scroll.horizontal
            },
        },
        ScrollDirection::Down(value) => ScrollAmount {
            vertical: if scroll.vertical + value <= u16::MAX {
                (scroll.vertical + value) as u16
            } else {
                scroll.vertical
            },
            horizontal: scroll.horizontal,
        },
        ScrollDirection::Left(value) => ScrollAmount {
            vertical: scroll.vertical,
            horizontal: if value <= scroll.horizontal {
                (scroll.horizontal - value) as u16
            } else {
                0
            },
        },
        ScrollDirection::Top => scroll,
        ScrollDirection::Bottom => scroll,
    }
}

/// Whether `copy` is what cloning each item of `items` may give.
pub open spec fn cloned_items<T: Clone>(items: Seq<T>, copy: Seq<T>) -> bool {
    &&& copy.len() == items.len()
    &&& forall|i: int| 0 <= i < items.len() ==> cloned(#[trigger] items[i], copy[i])
}

/// Table widget with TUI controlled states.
#[derive(Clone, Debug)]
pub struct StatefulTable<T: Clone> {
    /// Default table items (for search functionality).
    pub default_items: Vec<T>,
    /// Table items.
    pub items: Vec<T>,
    /// Table state.
    pub state: TableState,
}

impl<T: Clone> StatefulTable<T> {
    /// Constructs a new instance of `StatefulTable` with the first row
    /// selected.
    pub fn new(items: Vec<T>, state: TableState) -> (table: StatefulTable<T>)
        ensures
            table.items == items,
            cloned_items(items@, table.default_items@),
            table.state == (TableState {
                tui: TuiState { offset: state.tui.offset, selected: Some(0) },
                ..state
            }),
    {
        let mut state = state;
        state.tui.select(Some(0));
        Self { default_items: items.clone(), items, state }
    }

    /// Construct a new `StatefulTable` with given items.
    pub fn with_items(items: Vec<T>) -> (table: StatefulTable<T>)
        ensures
            table.items == items,
            cloned_items(items@, table.default_items@),
            table.state == (TableState {
                tui: TuiState { offset: 0, selected: Some(0) },
                scroll: ScrollAmount { vertical: 0, horizontal: 0 },
                size: TableSize::Normal,
                minimize_threshold: DEFAULT_MINIMIZE_THRESHOLD,
            }),
    {
        Self::new(items, TableState::default())
    }

    /// Returns the selected item.
    pub fn selected(&self) -> (r: Option<&T>)
        ensures
            match self.state.tui.selected {
                Some(i) if i < self.items.len() => r == Some(&self.items@[i as int]),
                _ => r is None,
            },
    {
        match self.state.tui.selected() {
            Some(i) => if i < self.items.len() {
                Some(&self.items[i])
            } else {
                None
            },
            None => None,
        }
    }

    /// Selects the next item and resets the row scroll.
    pub fn next(&mut self)
        ensures
            final(self).items == old(self).items,
            final(self).default_items == old(self).default_items,
            final(self).state == (TableState {
                tui: TuiState {
                    offset: old(self).state.tui.offset,
                    selected: Some(
                        next_index(old(self).state.tui.selected, old(self).items.len() as nat),
                    ),
                },
                scroll: ScrollAmount { vertical: 0, horizontal: 0 },
                ..old(self).state
            }),
    {
        let i: usize = match self.state.tui.selected() {
            Some(i) => {
                if self.items.len() == 0 || i >= self.items.len() - 1 {
                    0
                } else {
                    i + 1
                }
            },
            None => 0,
        };
        self.state.tui.select(Some(i));
        self.reset_scroll();
    }

    /// Selects the previous item and resets the row scroll.
    pub fn previous(&mut self)
        ensures
            final(self).items == old(self).items,
            final(self).default_items == old(self).default_items,
            final(self).state == (TableState {
                tui: TuiState {
                    offset: old(self).state.tui.offset,
                    selected: Some(
                        previous_index(
                            old(self).state.tui.selected,
                            old(self).items.len() as nat,
                        ),
                    ),
                },
                scroll: ScrollAmount { vertical: 0, horizontal: 0 },
                ..old(self).state
            }),
    {
        let i: usize = match self.state.tui.selected() {
            Some(i) => {
                if i == 0 {
                    if self.items.len() == 0 {
                        0
                    } else {
                        self.items.len() - 1
                    }
                } else {
                    i - 1
                }
            },
            None => 0,
        };
        self.state.tui.select(Some(i));
        self.reset_scroll();
    }

    /// Sets the scrolling state of the table row
    /// depending on the given direction and offset.
    pub fn scroll_row(&mut self, direction: ScrollDirection)
        ensures
            final(self).items == old(self).items,
            final(self).default_items == old(self).default_items,
            final(self).state == (TableState {
                scroll: scrolled(old(self).state.scroll, direction),
                ..old(self).state
            }),
    {
        match direction {
            ScrollDirection::Up(value) => {
                self.state.scroll.vertical = match self.state.scroll.vertical.checked_sub(value) {
                    Some(v) => v,
                    None => 0,
                };
            },
            ScrollDirection::Right(value) => {
                self.state.scroll.horizontal = match self.state.scroll.horizontal.checked_add(
                    value,
                ) {
                    Some(v) => v,
                    None => self.state.scroll.horizontal,
                };
            },
            ScrollDirection::Down(value) => {
                self.state.scroll.vertical = match self.state.scroll.vertical.checked_add(value) {
                    Some(v) => v,
                    None => self.state.scroll.vertical,
                };
            },
            ScrollDirection::Left(value) => {
                self.state.scroll.horizontal = match self.state.scroll.horizontal.checked_sub(
                    value,
                ) {
                    Some(v) => v,
                    None => 0,
                };
            },
            _ => {},
        }
    }

    /// Resets the items state: the full set of items is shown again and
    /// the first row is selected.
    pub fn reset_state(&mut self)
        ensures
            cloned_items(old(self).default_items@, final(self).items@),
            final(self).default_items == old(self).default_items,
            final(self).state == (TableState {
                tui: TuiState { offset: old(self).state.tui.offset, selected: Some(0) },
                ..old(self).state
            }),
    {
        self.items = self.default_items.clone();
        self.state.tui.select(Some(0));
    }

    /// Resets the scroll state.
    pub fn reset_scroll(&mut self)
        ensures
            final(self).items == old(self).items,
            final(self).default_items == old(self).default_items,
            final(self).state == (TableState {
                scroll: ScrollAmount { vertical: 0, horizontal: 0 },
                ..old(self).state
            }),
    {
        self.state.scroll = ScrollAmount::default();
    }
}

/// Scrolling a row never moves the selection, and scrolling up or left
/// from zero stays at zero.
pub proof fn lemma_scroll_saturates(scroll: ScrollAmount, value: u16)
    ensures
        scroll.vertical == 0 ==> scrolled(scroll, ScrollDirection::Up(value)).vertical == 0,
        scroll.horizontal == 0 ==> scrolled(scroll, ScrollDirection::Left(value)).horizontal
            == 0,
        scrolled(scroll, ScrollDirection::Up(value)).vertical <= scroll.vertical,
        scrolled(scroll, ScrollDirection::Left(value)).horizontal <= scroll.horizontal,
        scrolled(scroll, ScrollDirection::Down(value)).vertical >= scroll.vertical,
        scrolled(scroll, ScrollDirection::Right(value)).horizontal >= scroll.horizontal,
{
}

} // verus!
