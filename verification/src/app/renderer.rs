//! What the interface shows, worked out from the application: the line of
//! the prompt, the rows of the table of keys and the sizes around them.
//! Drawing is left to whoever owns the terminal.

use crate::app::launcher::{App, AppView, TableView};
use crate::app::output::{output_prefix, OutputType};
use crate::app::style::{colored_line, get_colored_table_row, Style};
use crate::app::tab::Tab;
use crate::gpg::key::{key_type_text, key_views, subkey_info, user_info, GpgKey, GpgKeyView};
use crate::text::{
    chars_of, concat, copy_of, decimal, decimal_string, join, joined, lines, lines_of, lowercase,
    string_of_range, views,
};
use crate::widget::rect::Rect;
use crate::widget::row::{layout, RowItem};
use crate::widget::style::TuiColor;
use crate::widget::table::TableSize;
use crate::widget::text::{span_views, Span, Spans, SpanView, Text, TuiStyle, BOLD};
use vstd::prelude::*;

verus! {

/// Length of the keys row in a table that is not of normal size.
pub const KEYS_ROW_LENGTH_SHORT: u16 = 31;

/// Length of the keys row in a table of normal size.
pub const KEYS_ROW_LENGTH: u16 = 55;

/// The number of columns that a text takes on the terminal, as
/// `unicode_width::UnicodeWidthStr::width` counts them.
pub uninterp spec fn display_width(s: Seq<char>) -> nat;

/// Counts the columns of a text with
/// `unicode_width::UnicodeWidthStr::width`; the count is a function of the
/// text alone and known only under the name [`display_width`].
#[verifier::external_body]
fn text_width(s: &str) -> (w: usize)
    ensures
        w == display_width(s@),
{
    unicode_width::UnicodeWidthStr::width(s)
}

/// How a line is aligned.
#[derive(Clone, Copy, Debug, PartialEq, Eq, Structural)]
pub enum Alignment {
    /// To the left.
    Left,
    /// To the right.
    Right,
}

/// The line of the prompt.
#[derive(Clone, Debug, PartialEq, Eq)]
pub struct PromptLine {
    /// The spans of the line.
    pub spans: Vec<Span>,
    /// The style of the line.
    pub style: TuiStyle,
    /// How the line is aligned.
    pub alignment: Alignment,
}

/// What the line of the prompt holds.
pub struct PromptLineView {
    pub spans: Seq<SpanView>,
    pub style: TuiStyle,
    pub alignment: Alignment,
}

impl View for PromptLine {
    type V = PromptLineView;

    open spec fn view(&self) -> PromptLineView {
        PromptLineView {
            spans: span_views(self.spans@),
            style: self.style,
            alignment: self.alignment,
        }
    }
}

/// A style that is bold and nothing else.
pub open spec fn bold() -> TuiStyle {
    TuiStyle { fg: None, bg: None, add_modifier: BOLD, sub_modifier: 0 }
}

/// A style that is bold and of a color.
pub open spec fn bold_colored(color: TuiColor) -> TuiStyle {
    TuiStyle { fg: Some(color), bg: None, add_modifier: BOLD, sub_modifier: 0 }
}

/// The style of the line of the prompt: a message is bold, and in a
/// colored application it has the color of its kind.
pub open spec fn prompt_style(style: Style, output_type: OutputType) -> TuiStyle {
    if style == Style::Colored {
        match output_type {
            OutputType::Success => bold_colored(TuiColor::LightGreen),
            OutputType::Warning => bold_colored(TuiColor::LightYellow),
            OutputType::Failure => bold_colored(TuiColor::LightRed),
            OutputType::Action => bold_colored(TuiColor::LightBlue),
            OutputType::Silent => TuiStyle::plain(),
        }
    } else if output_type != OutputType::Silent {
        bold()
    } else {
        TuiStyle::plain()
    }
}

/// What an idle prompt says of the current tab: the kind of keys that is
/// listed, and where the selection stands among them.
pub open spec fn tab_text(app: AppView) -> Seq<char> {
    match app.tab {
        Tab::Keys(key_type) => "list "@ + key_type_text(key_type) + (if app.keys_table.items.len()
            > 0 {
            " ("@ + decimal(
                (match app.keys_table.state.tui.selected {
                    Some(i) => i as nat,
                    None => 0,
                }) + 1,
            ) + "/"@ + decimal(app.keys_table.items.len()) + ")"@
        } else {
            Seq::empty()
        }),
        Tab::Help => "help"@,
    }
}

/// The line of the prompt: the text of the prompt behind the mark of its
/// kind, or, where the prompt is empty, the current tab between arrows at
/// the right.
pub open spec fn prompt_line(app: AppView) -> PromptLineView {
    PromptLineView {
        spans: if app.prompt.text.len() > 0 {
            seq![
                SpanView {
                    content: output_prefix(app.prompt.output_type) + app.prompt.text,
                    style: TuiStyle::plain(),
                },
            ]
        } else {
            let arrows = TuiStyle::colored(
                if app.state.style == Style::Colored {
                    TuiColor::LightBlue
                } else {
                    TuiColor::DarkGray
                },
            );
            seq![
                SpanView { content: "< "@, style: arrows },
                SpanView { content: tab_text(app), style: TuiStyle::plain() },
                SpanView { content: " >"@, style: arrows },
            ]
        },
        style: prompt_style(app.state.style, app.prompt.output_type),
        alignment: if app.prompt.text.len() > 0 {
            Alignment::Left
        } else {
            Alignment::Right
        },
    }
}

/// A sum that stays at the greatest value where it would pass it.
pub open spec fn saturating_sum(a: u16, b: nat) -> u16 {
    if a + b > u16::MAX {
        u16::MAX
    } else {
        (a + b) as u16
    }
}

/// Where the cursor stands while the prompt takes input: behind the text,
/// one row below the top of the area of the prompt.
pub open spec fn prompt_cursor(app: AppView, rect: Rect) -> Option<(u16, u16)> {
    if app.prompt.is_enabled() {
        Some((saturating_sum(rect.x, display_width(app.prompt.text)), saturating_sum(rect.y, 1)))
    } else {
        None
    }
}

fn get_prompt_style(style: Style, output_type: OutputType) -> (r: TuiStyle)
    ensures
        r == prompt_style(style, output_type),
{
    let bold = TuiStyle { fg: None, bg: None, add_modifier: BOLD, sub_modifier: 0 };
    if style.is_colored() {
        match output_type {
            OutputType::Success => bold.fg(TuiColor::LightGreen),
            OutputType::Warning => bold.fg(TuiColor::LightYellow),
            OutputType::Failure => bold.fg(TuiColor::LightRed),
            OutputType::Action => bold.fg(TuiColor::LightBlue),
            OutputType::Silent => TuiStyle::default(),
        }
    } else {
        match output_type {
            OutputType::Silent => TuiStyle::default(),
            _ => bold,
        }
    }
}

fn get_tab_text(app: &App) -> (r: String)
    ensures
        r@ == tab_text(app@),
{
    assert(key_views(app.keys_table.items@).len() == app.keys_table.items.len());
    match app.tab {
        Tab::Keys(key_type) => {
            let mut out = concat("list ", key_type.short_name());
            if app.keys_table.items.len() > 0 {
                let selected: u64 = match app.keys_table.state.tui.selected() {
                    Some(i) => i as u64,
                    None => 0,
                };
                let place = if selected < u64::MAX {
                    decimal_string(selected + 1)
                } else {
                    copy_of("18446744073709551616")
                };
                proof {
                    if selected == u64::MAX {
                        lemma_decimal_of_limit();
                    }
                }
                let count = decimal_string(app.keys_table.items.len() as u64);
                out.append(" (");
                out.append(place.as_str());
                out.append("/");
                out.append(count.as_str());
                out.append(")");
                assert(out@ =~= tab_text(app@));
            } else {
                assert(out@ =~= tab_text(app@));
            }
            out
        },
        Tab::Help => copy_of("help"),
    }
}

/// The number after the greatest `u64`, in decimal.
proof fn lemma_decimal_of_limit()
    ensures
        decimal((u64::MAX + 1) as nat) == "18446744073709551616"@,
{
    reveal_strlit("18446744073709551616");
    reveal_with_fuel(decimal, 21);
    assert(decimal(18446744073709551616nat) =~= "18446744073709551616"@);
}

/// The line of the prompt.
pub fn get_prompt_line(app: &App) -> (line: PromptLine)
    ensures
        line@ == prompt_line(app@),
{
    let mut spans: Vec<Span> = Vec::new();
    let filled = app.prompt.text.as_str().unicode_len() != 0;
    if filled {
        let text = concat(app.prompt.output_type.prefix(), app.prompt.text.as_str());
        spans.push(Span::raw(text));
        assert(span_views(spans@) =~= prompt_line(app@).spans);
    } else {
        let arrows = TuiStyle::with_fg(
            if app.state.style.is_colored() {
                TuiColor::LightBlue
            } else {
                TuiColor::DarkGray
            },
        );
        spans.push(Span::styled(copy_of("< "), arrows));
        spans.push(Span::raw(get_tab_text(app)));
        spans.push(Span::styled(copy_of(" >"), arrows));
        assert(span_views(spans@) =~= prompt_line(app@).spans);
    }
    PromptLine {
        spans,
        style: get_prompt_style(app.state.style, app.prompt.output_type),
        alignment: if filled {
            Alignment::Left
        } else {
            Alignment::Right
        },
    }
}

/// Where the cursor stands in the area of the prompt, if the prompt takes
/// input.
pub fn get_prompt_cursor(app: &App, rect: Rect) -> (cursor: Option<(u16, u16)>)
    ensures
        cursor == prompt_cursor(app@, rect),
{
    if app.prompt.is_enabled() {
        let width = text_width(app.prompt.text.as_str());
        let x: u16 = if width >= 65535 || (rect.x as usize) + width > 65535 {
            65535
        } else {
            (rect.x as usize + width) as u16
        };
        let y: u16 = if rect.y == 65535 {
            65535
        } else {
            rect.y + 1
        };
        Some((x, y))
    } else {
        None
    }
}

/// The length of the keys row in a table of the given size.
pub open spec fn keys_row_length(size: TableSize) -> u16 {
    if size != TableSize::Normal {
        KEYS_ROW_LENGTH_SHORT
    } else {
        KEYS_ROW_LENGTH
    }
}

/// The width that is left for the column of user ids, and the height that
/// is left for a row, in a table of the given size and area: the keys row
/// with its frame is taken from the width and the frame from the height,
/// where the area is that large.
pub open spec fn keys_table_room(size: TableSize, rect: Rect) -> (u16, u16) {
    (
        if rect.width >= keys_row_length(size) + 7 {
            (rect.width - (keys_row_length(size) + 7)) as u16
        } else {
            rect.width
        },
        if rect.height >= 2 {
            (rect.height - 2) as u16
        } else {
            rect.height
        },
    )
}

/// The length of the keys row in a table of the given size.
pub fn get_keys_row_length(size: TableSize) -> (r: u16)
    ensures
        r == keys_row_length(size),
{
    match size {
        TableSize::Normal => KEYS_ROW_LENGTH,
        _ => KEYS_ROW_LENGTH_SHORT,
    }
}

/// The width that is left for the column of user ids, and the height that
/// is left for a row.
pub fn get_keys_table_room(size: TableSize, rect: Rect) -> (r: (u16, u16))
    ensures
        r == keys_table_room(size, rect),
{
    let taken = get_keys_row_length(size) + 7;
    (
        if rect.width >= taken {
            rect.width - taken
        } else {
            rect.width
        },
        if rect.height >= 2 {
            rect.height - 2
        } else {
            rect.height
        },
    )
}

/// The application after its table was fitted to the width of the
/// terminal: where a threshold is set, the table is minimized below it.
pub open spec fn size_fitted(app: AppView, width: u16) -> AppView {
    let threshold = app.keys_table.state.minimize_threshold;
    if threshold != 0 {
        AppView {
            keys_table: TableView {
                state: crate::widget::table::TableState {
                    size: if width < threshold {
                        TableSize::Minimized
                    } else if app.keys_table.state.size == TableSize::Minimized {
                        TableSize::Normal
                    } else {
                        app.keys_table.state.size
                    },
                    ..app.keys_table.state
                },
                ..app.keys_table
            },
            ..app
        }
    } else {
        app
    }
}

/// Fits the size of the table to the width of the terminal.
pub fn fit_table_size(app: &mut App, width: u16)
    ensures
        final(app)@ == size_fitted(old(app)@, width),
{
    if app.keys_table.state.minimize_threshold != 0 {
        app.keys_table.state.size.set_minimized(width < app.keys_table.state.minimize_threshold);
    }
}

/// Whether `needle` stands somewhere in `hay`.
pub open spec fn occurs_in(needle: Seq<char>, hay: Seq<char>) -> bool {
    exists|i: int| is_occurrence(needle, hay, i)
}

/// Whether `needle` stands in `hay` at `i`.
pub open spec fn is_occurrence(needle: Seq<char>, hay: Seq<char>, i: int) -> bool {
    0 <= i && i + needle.len() <= hay.len() && hay.subrange(i, i + needle.len()) == needle
}

/// Whether `needle` stands somewhere in `hay`.
pub fn contains_text(hay: &str, needle: &str) -> (r: bool)
    ensures
        r == occurs_in(needle@, hay@),
{
    let h = chars_of(hay);
    let n = chars_of(needle);
    if n.len() > h.len() {
        assert(forall|i: int| !is_occurrence(n@, h@, i));
        return false;
    }
    let mut i: usize = 0;
    while i <= h.len() - n.len()
        invariant
            h@ == hay@,
            n@ == needle@,
            n.len() <= h.len(),
            i <= h.len() - n.len() + 1,
            forall|k: int| 0 <= k < i ==> !is_occurrence(n@, h@, k),
        decreases h.len() - n.len() + 1 - i,
    {
        let mut j: usize = 0;
        while j < n.len() && h[i + j] == n[j]
            invariant
                j <= n.len(),
                i + n.len() <= h.len(),
                forall|k: int| 0 <= k < j ==> h@[i + k] == n@[k],
            decreases n.len() - j,
        {
            j += 1;
        }
        if j == n.len() {
            assert(h@.subrange(i as int, i + n.len()) =~= n@);
            assert(is_occurrence(n@, h@, i as int));
            return true;
        }
        assert(!is_occurrence(n@, h@, i as int)) by {
            if is_occurrence(n@, h@, i as int) {
                assert(h@.subrange(i as int, i + n.len())[j as int] == n@[j as int]);
            }
        }
        i += 1;
    }
    assert(forall|k: int| !is_occurrence(n@, h@, k));
    false
}

/// A row of the table of keys.
#[derive(Clone, Debug, PartialEq, Eq)]
pub struct KeyRow {
    /// The cell of the subkeys.
    pub keys: Text,
    /// The cell of the user ids.
    pub users: Text,
    /// The height of the row.
    pub height: u16,
    /// The margin below the row.
    pub bottom_margin: u16,
}

/// What a row of the table of keys holds.
pub struct KeyRowView {
    pub keys: Seq<Seq<SpanView>>,
    pub users: Seq<Seq<SpanView>>,
    pub height: u16,
    pub bottom_margin: u16,
}

impl View for KeyRow {
    type V = KeyRowView;

    open spec fn view(&self) -> KeyRowView {
        KeyRowView {
            keys: self.keys@,
            users: self.users@,
            height: self.height,
            bottom_margin: self.bottom_margin,
        }
    }
}

/// The views of a sequence of rows.
pub open spec fn row_views(rows: Seq<KeyRow>) -> Seq<KeyRowView> {
    Seq::new(rows.len(), |i: int| rows[i]@)
}

/// What is searched for: the text of the prompt behind its first
/// character, in lower case.
pub open spec fn search_term(app: AppView) -> Seq<char> {
    lowercase(app.prompt.text.skip(1))
}

/// The lines of the subkeys of a key as the table shows them.
pub open spec fn shown_subkeys(app: AppView, key: GpgKeyView) -> Seq<Seq<char>> {
    subkey_info(key, app.gpgme.default_key, app.keys_table.state.size != TableSize::Normal)
}

/// The lines of the user ids of a key as the table shows them.
pub open spec fn shown_users(app: AppView, key: GpgKeyView) -> Seq<Seq<char>> {
    user_info(key, app.keys_table.state.size == TableSize::Minimized)
}

/// Whether a key stays in the table: during a search only a key stays
/// whose lines hold what is searched for, whatever the case of the
/// letters.
pub open spec fn key_is_shown(app: AppView, key: GpgKeyView) -> bool {
    app.prompt.is_search() ==> occurs_in(
        search_term(app),
        lowercase(joined(shown_subkeys(app, key), "\n"@)),
    ) || occurs_in(search_term(app), lowercase(joined(shown_users(app, key), "\n"@)))
}

/// A cell of the table: its lines colored, or as they are.
pub open spec fn cell(lines: Seq<Seq<char>>, colored: bool, highlighted: bool) -> Seq<
    Seq<SpanView>,
> {
    if colored {
        lines.map_values(|line: Seq<char>| colored_line(line, highlighted))
    } else {
        lines_of(joined(lines, "\n"@)).map_values(
            |line: Seq<char>| seq![SpanView { content: line, style: TuiStyle::plain() }],
        )
    }
}

/// The height of a row of two cells: the number of lines of the higher
/// one, or 1 where that is no `u16`.
pub open spec fn row_height(keys: nat, users: nat) -> u16 {
    let height = if keys > users {
        keys
    } else {
        users
    };
    if height <= u16::MAX {
        height as u16
    } else {
        1
    }
}

/// The row of the key at `index`.
pub open spec fn key_row(app: AppView, index: int, max_width: u16, max_height: u16)
    -> KeyRowView {
    let key = app.keys_table.items[index];
    let scroll = app.keys_table.state.scroll;
    let keys = layout(shown_subkeys(app, key), None, max_height, scroll);
    let users = layout(shown_users(app, key), Some(max_width), max_height, scroll);
    let colored = app.state.style == Style::Colored;
    let highlighted = app.keys_table.state.tui.selected == Some(index as usize);
    KeyRowView {
        keys: cell(keys, colored, highlighted),
        users: cell(users, colored, highlighted),
        height: row_height(keys.len(), users.len()),
        bottom_margin: app.keys_table_margin,
    }
}

/// The keys that stay among the first `count` keys of the table.
pub open spec fn shown_keys(app: AppView, count: nat) -> Seq<GpgKeyView>
    decreases count,
{
    if count == 0 {
        Seq::empty()
    } else {
        let index = count - 1;
        let before = shown_keys(app, index as nat);
        if key_is_shown(app, app.keys_table.items[index]) {
            before.push(app.keys_table.items[index])
        } else {
            before
        }
    }
}

/// The rows of the keys that stay among the first `count` keys of the
/// table.
pub open spec fn shown_rows(app: AppView, count: nat, max_width: u16, max_height: u16) -> Seq<
    KeyRowView,
>
    decreases count,
{
    if count == 0 {
        Seq::empty()
    } else {
        let index = count - 1;
        let before = shown_rows(app, index as nat, max_width, max_height);
        if key_is_shown(app, app.keys_table.items[index]) {
            before.push(key_row(app, index, max_width, max_height))
        } else {
            before
        }
    }
}

/// A cell of the table.
fn get_cell(lines: &Vec<String>, colored: bool, highlighted: bool) -> (text: Text)
    ensures
        text@ == cell(views(lines@), colored, highlighted),
{
    if colored {
        get_colored_table_row(lines, highlighted)
    } else {
        let whole = join(lines, "\n");
        let all = crate::text::lines(whole.as_str());
        let mut rows: Vec<Spans> = Vec::new();
        let mut i: usize = 0;
        while i < all.len()
            invariant
                i <= all.len(),
                rows.len() == i,
                forall|j: int|
                    0 <= j < i ==> (#[trigger] rows@[j])@ == seq![
                        SpanView { content: all@[j]@, style: TuiStyle::plain() },
                    ],
            decreases all.len() - i,
        {
            let mut spans: Vec<Span> = Vec::new();
            spans.push(Span::raw(all[i].clone()));
            let row = Spans(spans);
            assert(row@ =~= seq![SpanView { content: all@[i as int]@, style: TuiStyle::plain() }]);
            rows.push(row);
            i += 1;
        }
        let text = Text { lines: rows };
        assert(text@ =~= cell(views(lines@), colored, highlighted));
        text
    }
}

/// Returns the rows for keys table, and leaves in the table the keys
/// that the search lets through.
pub fn get_keys_table_rows(app: &mut App, max_width: u16, max_height: u16) -> (rows: Vec<KeyRow>)
    ensures
        row_views(rows@) == shown_rows(
            old(app)@,
            old(app)@.keys_table.items.len(),
            max_width,
            max_height,
        ),
        final(app)@ == (AppView {
            keys_table: TableView {
                items: shown_keys(old(app)@, old(app)@.keys_table.items.len()),
                ..old(app)@.keys_table
            },
            ..old(app)@
        }),
{
    let compact = match app.keys_table.state.size {
        TableSize::Normal => false,
        _ => true,
    };
    let minimized = match app.keys_table.state.size {
        TableSize::Minimized => true,
        _ => false,
    };
    let searching = app.prompt.is_search_enabled();
    let term = if searching {
        let chars = chars_of(app.prompt.text.as_str());
        let rest = string_of_range(&chars, 1, chars.len());
        assert(chars@.subrange(1, chars.len() as int) == chars@.skip(1));
        rest.as_str().to_lowercase()
    } else {
        String::new()
    };
    let colored = app.state.style.is_colored();
    let selected = app.keys_table.state.tui.selected();
    let scroll = app.keys_table.state.scroll;
    let margin = app.keys_table_margin;
    let mut rows: Vec<KeyRow> = Vec::new();
    let mut kept: Vec<GpgKey> = Vec::new();
    let count: usize = app.keys_table.items.len();
    assert(key_views(app.keys_table.items@).len() == count);
    assert(row_views(rows@) =~= shown_rows(app@, 0, max_width, max_height));
    assert(key_views(kept@) =~= shown_keys(app@, 0));
    let mut i: usize = 0;
    while i < count
        invariant
            i <= count,
            count == app.keys_table.items.len(),
            *app == *old(app),
            compact == (app@.keys_table.state.size != TableSize::Normal),
            minimized == (app@.keys_table.state.size == TableSize::Minimized),
            searching == app@.prompt.is_search(),
            searching ==> term@ == search_term(app@),
            colored == (app@.state.style == Style::Colored),
            selected == app@.keys_table.state.tui.selected,
            scroll == app@.keys_table.state.scroll,
            margin == app@.keys_table_margin,
            row_views(rows@) == shown_rows(app@, i as nat, max_width, max_height),
            key_views(kept@) == shown_keys(app@, i as nat),
        decreases count - i,
    {
        let key = &app.keys_table.items[i];
        assert(key@ == app@.keys_table.items[i as int]);
        let subkeys = key.get_subkey_info(&app.gpgme.default_key, compact);
        let users = key.get_user_info(minimized);
        let shown = if searching {
            let first = join(&subkeys, "\n").as_str().to_lowercase();
            let second = join(&users, "\n").as_str().to_lowercase();
            contains_text(first.as_str(), term.as_str()) || contains_text(
                second.as_str(),
                term.as_str(),
            )
        } else {
            true
        };
        if shown {
            let keys_row = RowItem::new(subkeys, None, max_height, scroll);
            let users_row = RowItem::new(users, Some(max_width), max_height, scroll);
            let highlighted = match selected {
                Some(s) => s == i,
                None => false,
            };
            let height: usize = if keys_row.data.len() > users_row.data.len() {
                keys_row.data.len()
            } else {
                users_row.data.len()
            };
            assert(views(keys_row.data@).len() == keys_row.data.len());
            assert(views(users_row.data@).len() == users_row.data.len());
            let row = KeyRow {
                keys: get_cell(&keys_row.data, colored, highlighted),
                users: get_cell(&users_row.data, colored, highlighted),
                height: if height <= 65535 {
                    height as u16
                } else {
                    1
                },
                bottom_margin: margin,
            };
            assert(row@ == key_row(app@, i as int, max_width, max_height));
            let copy = key.clone();
            assert(row_views(rows@.push(row)) =~= row_views(rows@).push(row@));
            assert(key_views(kept@.push(copy)) =~= key_views(kept@).push(copy@));
            rows.push(row);
            kept.push(copy);
        }
        i += 1;
    }
    app.keys_table.items = kept;
    rows
}

} // verus!
