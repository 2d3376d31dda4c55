use gpg_tui::widget::list::{ListState, StatefulList};
use gpg_tui::widget::row::{RowItem, ScrollAmount, ScrollDirection};
use gpg_tui::widget::table::{StatefulTable, TableSize, TableState};

fn strings(items: &[&str]) -> Vec<String> {
    items.iter().map(|v| v.to_string()).collect()
}

#[test]
fn test_widget_list() {
    let mut list = StatefulList::with_items(vec!["data1", "data2", "data3"]);
    list.state.select(Some(1));
    assert_eq!(Some(1), list.state.selected());
    list.next();
    assert_eq!(Some(2), list.state.selected());
    list.previous();
    assert_eq!(Some(1), list.state.selected());
}

#[test]
fn test_widget_list_wraps() {
    let mut list = StatefulList::new(vec![1, 2, 3], ListState::default());
    assert_eq!(None, list.state.selected());
    assert_eq!(None, list.selected());
    list.next();
    assert_eq!(Some(0), list.state.selected());
    list.state.select(Some(2));
    assert_eq!(Some(&3), list.selected());
    list.next();
    assert_eq!(Some(0), list.state.selected());
    list.previous();
    assert_eq!(Some(2), list.state.selected());
    let mut empty: StatefulList<u8> = StatefulList::with_items(Vec::new());
    empty.next();
    assert_eq!(Some(0), empty.state.selected());
    empty.previous();
    assert_eq!(Some(0), empty.state.selected());
    assert_eq!(None, empty.selected());
}

#[test]
fn test_widget_row() {
    assert_eq!(
        vec!["..", ".ne3", ".ne4", ".."],
        RowItem::new(
            vec![
                String::from("line1"),
                String::from("line2"),
                String::from("line3"),
                String::from("line4"),
                String::from("line5"),
            ],
            Some(4),
            4,
            ScrollAmount {
                vertical: 1,
                horizontal: 1,
            },
        )
        .data
    );
    assert_eq!(
        ScrollDirection::Right(5),
        ScrollDirection::from_str("right 5").unwrap()
    );
    assert_eq!(
        ScrollDirection::Left(9),
        ScrollDirection::from_str("left 9").unwrap()
    );
    assert_eq!(
        ScrollDirection::Down(1),
        ScrollDirection::from_str("d").unwrap()
    );
    assert_eq!(
        ScrollDirection::Top,
        ScrollDirection::from_str("top").unwrap()
    );
    assert_eq!(
        ScrollDirection::Bottom,
        ScrollDirection::from_str("bottom").unwrap()
    );
    assert!(ScrollDirection::from_str("xyz").is_err());
}

#[test]
fn test_scroll_direction_amounts() {
    assert_eq!(Ok(ScrollDirection::Up(1)), ScrollDirection::from_str("u"));
    assert_eq!(Ok(ScrollDirection::Up(1)), ScrollDirection::from_str("up x"));
    assert_eq!(Ok(ScrollDirection::Up(1)), ScrollDirection::from_str("up -3"));
    assert_eq!(Ok(ScrollDirection::Up(7)), ScrollDirection::from_str("up +7"));
    assert_eq!(Ok(ScrollDirection::Up(1)), ScrollDirection::from_str("up +"));
    assert_eq!(Ok(ScrollDirection::Up(12)), ScrollDirection::from_str("  up \t 012  9"));
    assert_eq!(Ok(ScrollDirection::Left(65535)), ScrollDirection::from_str("l 65535"));
    assert_eq!(Ok(ScrollDirection::Left(1)), ScrollDirection::from_str("l 65536"));
    assert_eq!(Ok(ScrollDirection::Right(0)), ScrollDirection::from_str("r 0"));
    assert_eq!(Ok(ScrollDirection::Top), ScrollDirection::from_str("t 4"));
    assert_eq!(Ok(ScrollDirection::Bottom), ScrollDirection::from_str("b"));
    assert_eq!(Err(()), ScrollDirection::from_str(""));
    assert_eq!(Err(()), ScrollDirection::from_str("UP"));
}

#[test]
fn test_row_within_bounds_is_unchanged() {
    let lines = strings(&["ab", "abcd", ""]);
    assert_eq!(
        lines,
        RowItem::new(lines.clone(), Some(4), 3, ScrollAmount::default()).data
    );
    assert_eq!(
        lines,
        RowItem::new(lines.clone(), None, 5, ScrollAmount::default()).data
    );
    let empty: Vec<String> = Vec::new();
    assert_eq!(
        empty,
        RowItem::new(Vec::new(), Some(0), 0, ScrollAmount { vertical: 3, horizontal: 3 }).data
    );
}

#[test]
fn test_row_vertical_scroll() {
    let lines = strings(&["l1", "l2", "l3", "l4", "l5"]);
    let scroll = |vertical: u16| ScrollAmount { vertical, horizontal: 0 };
    assert_eq!(
        strings(&["...", "l3", "l4", "..."]),
        RowItem::new(lines.clone(), None, 4, scroll(1)).data
    );
    assert_eq!(
        strings(&["l1", "l2", "l3", "..."]),
        RowItem::new(lines.clone(), None, 4, scroll(0)).data
    );
    // the overflow is 2: scrolling further hides no more than two lines
    assert_eq!(
        strings(&["...", "l4", "l5"]),
        RowItem::new(lines.clone(), None, 4, scroll(2)).data
    );
    assert_eq!(
        strings(&["...", "l4", "l5"]),
        RowItem::new(lines.clone(), None, 4, scroll(200)).data
    );
    let none: Vec<String> = Vec::new();
    assert_eq!(none, RowItem::new(lines.clone(), None, 0, scroll(0)).data);
    assert_eq!(none, RowItem::new(lines.clone(), None, 0, scroll(5)).data);
    assert_eq!(none, RowItem::new(lines.clone(), None, 0, scroll(9)).data);
    assert_eq!(
        strings(&["..."]),
        RowItem::new(lines.clone(), None, 1, scroll(0)).data
    );
}

#[test]
fn test_row_horizontal_scroll_counts_characters() {
    let lines = strings(&["äöüß€xyz", "ab"]);
    assert_eq!(
        strings(&["äöü..", "ab"]),
        RowItem::new(lines.clone(), Some(3), 2, ScrollAmount::default()).data
    );
    assert_eq!(
        strings(&[".üß€..", ""]),
        RowItem::new(
            lines.clone(),
            Some(4),
            2,
            ScrollAmount { vertical: 0, horizontal: 1 }
        )
        .data
    );
    // no line reaches the width: nothing is scrolled
    assert_eq!(
        lines,
        RowItem::new(
            lines.clone(),
            Some(9),
            2,
            ScrollAmount { vertical: 0, horizontal: 1 }
        )
        .data
    );
    assert_eq!(
        strings(&["..", ".."]),
        RowItem::new(lines.clone(), Some(0), 2, ScrollAmount::default()).data
    );
    let item = RowItem::new(
        lines.clone(),
        Some(8),
        2,
        ScrollAmount { vertical: 0, horizontal: 65535 },
    );
    assert_eq!(strings(&["", ""]), item.data);
    assert_eq!(Some(8), item.max_width);
    assert_eq!(2, item.max_height);
}

#[test]
fn test_widget_table() {
    let mut table = StatefulTable::with_items(vec!["data1", "data2", "data3"]);
    table.state.tui.select(Some(1));
    assert_eq!(Some(&"data2"), table.selected());
    table.next();
    assert_eq!(Some(2), table.state.tui.selected());
    table.previous();
    assert_eq!(Some(1), table.state.tui.selected());
    table.reset_scroll();
    assert_eq!(
        "ScrollAmount { vertical: 0, horizontal: 0 }",
        &format!("{:?}", table.state.scroll)
    );
    table.scroll_row(ScrollDirection::Down(3));
    table.scroll_row(ScrollDirection::Right(2));
    assert_eq!(
        "ScrollAmount { vertical: 3, horizontal: 2 }",
        &format!("{:?}", table.state.scroll)
    );
    table.scroll_row(ScrollDirection::Up(1));
    table.scroll_row(ScrollDirection::Left(1));
    assert_eq!(
        "ScrollAmount { vertical: 2, horizontal: 1 }",
        &format!("{:?}", table.state.scroll)
    );
    table.reset_state();
    assert_eq!(Some(0), table.state.tui.selected());
    assert_eq!(table.default_items, table.items);
}

#[test]
fn test_table_wraps_and_saturates() {
    let mut table = StatefulTable::with_items(vec![10, 20, 30]);
    assert_eq!(Some(0), table.state.tui.selected());
    table.state.tui.select(Some(2));
    table.scroll_row(ScrollDirection::Down(4));
    table.next();
    assert_eq!(Some(0), table.state.tui.selected());
    assert_eq!(ScrollAmount { vertical: 0, horizontal: 0 }, table.state.scroll);
    table.previous();
    assert_eq!(Some(2), table.state.tui.selected());
    table.scroll_row(ScrollDirection::Up(1));
    table.scroll_row(ScrollDirection::Left(9));
    assert_eq!(ScrollAmount { vertical: 0, horizontal: 0 }, table.state.scroll);
    table.scroll_row(ScrollDirection::Down(65535));
    table.scroll_row(ScrollDirection::Down(1));
    table.scroll_row(ScrollDirection::Right(65530));
    table.scroll_row(ScrollDirection::Right(6));
    assert_eq!(
        ScrollAmount { vertical: 65535, horizontal: 65530 },
        table.state.scroll
    );
    table.scroll_row(ScrollDirection::Top);
    table.scroll_row(ScrollDirection::Bottom);
    assert_eq!(Some(2), table.state.tui.selected());
    assert_eq!(
        ScrollAmount { vertical: 65535, horizontal: 65530 },
        table.state.scroll
    );
    table.items = vec![30];
    table.state.tui.select(Some(5));
    assert_eq!(None, table.selected());
    table.next();
    assert_eq!(Some(0), table.state.tui.selected());
    table.reset_state();
    assert_eq!(vec![10, 20, 30], table.items);
    table.state.tui.select(None);
    table.previous();
    assert_eq!(Some(0), table.state.tui.selected());
}

#[test]
fn test_table_size() {
    let state = TableState::default();
    assert_eq!(TableSize::Normal, state.size);
    assert_eq!(90, state.minimize_threshold);
    assert_eq!(TableSize::Compact, state.size.next());
    assert_eq!(TableSize::Minimized, TableSize::Compact.next());
    assert_eq!(TableSize::Normal, TableSize::Minimized.next());
    let mut size = TableSize::Compact;
    size.set_minimized(false);
    assert_eq!(TableSize::Compact, size);
    size.set_minimized(true);
    assert_eq!(TableSize::Minimized, size);
    size.set_minimized(false);
    assert_eq!(TableSize::Normal, size);
    assert_eq!("compact", TableSize::Compact.name());
}
