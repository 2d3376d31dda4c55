//! The style of the application.

use crate::text::{
    ascii_lowered, chars_of, copy_of, find_char, first_char, lines, lines_of, rfind_char, str_eq,
    string_of, string_of_range, to_ascii_lowercase, views,
};
use crate::widget::style::TuiColor;
use crate::widget::text::{lemma_span_views_push, span_views, Span, Spans, SpanView, Text, TuiStyle};
use vstd::prelude::*;

verus! {

/// Application style.
#[derive(Clone, Copy, Debug, PartialEq, Eq, Structural)]
pub enum Style {
    /// Plain style with basic colors.
    Plain,
    /// More rich style with highlighted widgets and more colors.
    Colored,
}

impl Default for Style {
    fn default() -> (r: Self)
        ensures
            r == Style::Plain,
    {
        Style::Plain
    }
}

/// The style that a name denotes.
pub open spec fn style_of(name: Seq<char>) -> Option<Style> {
    if name == "plain"@ {
        Some(Style::Plain)
    } else if name == "colored"@ {
        Some(Style::Colored)
    } else {
        None
    }
}

impl Style {
    /// Reads a style from its name as it is written.
    pub fn from_str(name: &str) -> (r: Result<Style, String>)
        ensures
            match style_of(name@) {
                Some(style) => r == Ok::<Style, String>(style),
                None => r matches Err(message) && message@ == "could not parse the style"@,
            },
    {
        if str_eq(name, "plain") {
            Ok(Style::Plain)
        } else if str_eq(name, "colored") {
            Ok(Style::Colored)
        } else {
            Err(copy_of("could not parse the style"))
        }
    }

    /// Reads a style from its name, the ASCII letters in either case.
    pub fn from_str_ignore_case(name: &str) -> (r: Option<Style>)
        ensures
            r == style_of(ascii_lowered(name@)),
    {
        let lowered = to_ascii_lowercase(name);
        match Style::from_str(lowered.as_str()) {
            Ok(style) => Some(style),
            Err(_) => None,
        }
    }

    /// The lower-case name of the style.
    pub fn name(&self) -> (r: &'static str)
        ensures
            r@ == match *self {
                Style::Plain => "plain"@,
                Style::Colored => "colored"@,
            },
    {
        match self {
            Style::Plain => "plain",
            Style::Colored => "colored",
        }
    }

    /// The lower-case name of the style.
    pub fn to_string(&self) -> (r: String)
        ensures
            r@ == match *self {
                Style::Plain => "plain"@,
                Style::Colored => "colored"@,
            },
    {
        self.name().to_owned()
    }

    /// Returns `true` if the style is [`Colored`].
    ///
    /// [`Colored`]: Self::Colored
    pub fn is_colored(&self) -> (r: bool)
        ensures
            r == (*self == Style::Colored),
    {
        match self {
            Style::Colored => true,
            Style::Plain => false,
        }
    }

    /// Returns the next style.
    pub fn next(&self) -> (r: Self)
        ensures
            r == match *self {
                Style::Plain => Style::Colored,
                Style::Colored => Style::Plain,
            },
    {
        match self {
            Style::Plain => Style::Colored,
            _ => Style::Plain,
        }
    }
}

/// The style of text that is not colored: the default color of the
/// terminal on a highlighted row, no style elsewhere.
pub open spec fn highlight_style(highlighted: bool) -> TuiStyle {
    if highlighted {
        TuiStyle::colored(TuiColor::Reset)
    } else {
        TuiStyle::plain()
    }
}

/// The style of a single flag between brackets.
pub open spec fn flag_style(flag: char) -> TuiStyle {
    if flag == '?' || flag == 'q' || flag == '-' {
        TuiStyle::colored(TuiColor::DarkGray)
    } else if flag == 'n' {
        TuiStyle::colored(TuiColor::Red)
    } else if flag == 'm' {
        TuiStyle::colored(TuiColor::Blue)
    } else if flag == 'f' {
        TuiStyle::colored(TuiColor::Magenta)
    } else if flag == 'u' || flag == 'h' {
        TuiStyle::colored(TuiColor::Green)
    } else if flag == 's' {
        TuiStyle::colored(TuiColor::LightGreen)
    } else if flag == 'c' {
        TuiStyle::colored(TuiColor::LightBlue)
    } else if flag == 'e' {
        TuiStyle::colored(TuiColor::Yellow)
    } else if flag == 'a' || flag == '!' {
        TuiStyle::colored(TuiColor::LightRed)
    } else {
        TuiStyle::plain()
    }
}

/// The style of the class of a certification, which is written with two
/// characters.
pub open spec fn class_style(class: Seq<char>) -> TuiStyle {
    if class == "10"@ {
        TuiStyle::colored(TuiColor::Yellow)
    } else if class == "11"@ {
        TuiStyle::colored(TuiColor::Magenta)
    } else if class == "12"@ {
        TuiStyle::colored(TuiColor::Blue)
    } else if class == "13"@ {
        TuiStyle::colored(TuiColor::Green)
    } else {
        TuiStyle::colored(TuiColor::Red)
    }
}

/// Whether the text between brackets marks a key as expired, revoked,
/// disabled or invalid.
pub open spec fn is_alarm(data: Seq<char>) -> bool {
    data == "exp"@ || data == "rev"@ || data == "d"@ || data == "i"@
}

/// The spans of what stands between brackets: an alarm in red, the class
/// of a certification in its color, and flags one by one.
pub open spec fn bracket_spans(data: Seq<char>) -> Seq<SpanView> {
    if is_alarm(data) {
        seq![SpanView { content: data, style: TuiStyle::colored(TuiColor::Red) }]
    } else if data.len() == 2 {
        seq![SpanView { content: data, style: class_style(data) }]
    } else {
        Seq::new(
            data.len(),
            |i: int| SpanView { content: seq![data[i]], style: flag_style(data[i]) },
        )
    }
}

/// The spans of a line from its closing bracket on: the name of an
/// algorithm before a slash that stands nine characters in, or an address
/// between the last `<` and the last `>`, is colored; anything else is
/// left as it is.
pub open spec fn tail_spans(rest: Seq<char>, highlighted: bool) -> Seq<SpanView> {
    let plain = highlight_style(highlighted);
    if rest.index_of_first('/') == Some(9int) {
        seq![
            SpanView { content: rest.take(1), style: plain },
            SpanView { content: rest.subrange(1, 9), style: TuiStyle::colored(TuiColor::Cyan) },
            SpanView { content: "/"@, style: TuiStyle::colored(TuiColor::DarkGray) },
            SpanView { content: rest.skip(10), style: plain },
        ]
    } else {
        match (rest.index_of_last('<'), rest.index_of_last('>')) {
            (Some(open), Some(close)) if open < close => seq![
                SpanView { content: rest.take(open), style: plain },
                SpanView { content: "<"@, style: TuiStyle::colored(TuiColor::DarkGray) },
                SpanView {
                    content: rest.subrange(open + 1, close),
                    style: TuiStyle::colored(TuiColor::Cyan),
                },
                SpanView { content: ">"@, style: TuiStyle::colored(TuiColor::DarkGray) },
                SpanView { content: rest.skip(close + 1), style: plain },
            ],
            _ => seq![SpanView { content: rest, style: plain }],
        }
    }
}

/// The index of the first `c` of a line, or 0 where there is none.
pub open spec fn first_or_zero(line: Seq<char>, c: char) -> int {
    match line.index_of_first(c) {
        Some(i) => i,
        None => 0,
    }
}

/// The spans of a line of a table row. A line with something between its
/// first `[` and its first `]` is colored; any other line is one span.
pub open spec fn colored_line(line: Seq<char>, highlighted: bool) -> Seq<SpanView> {
    let open = first_or_zero(line, '[');
    let close = first_or_zero(line, ']');
    if close > open + 1 {
        seq![SpanView { content: line.take(open + 1), style: highlight_style(highlighted) }]
            + bracket_spans(line.subrange(open + 1, close)) + tail_spans(
            line.skip(close),
            highlighted,
        )
    } else {
        seq![SpanView { content: line, style: highlight_style(highlighted) }]
    }
}

/// The spans of a line of information: a line that holds a `:` and does
/// not start with a blank is a name, the `:` and a value in `color`.
pub open spec fn info_line(line: Seq<char>, color: TuiColor) -> Seq<SpanView> {
    match line.index_of_first(':') {
        Some(i) if first_char(line) != Some(' ') => seq![
            SpanView { content: line.take(i), style: TuiStyle::colored(TuiColor::Reset) },
            SpanView { content: ":"@, style: TuiStyle::colored(TuiColor::DarkGray) },
            SpanView { content: line.skip(i + 1), style: TuiStyle::colored(color) },
        ],
        _ => seq![SpanView { content: line, style: TuiStyle::colored(TuiColor::Reset) }],
    }
}

fn span_of(chars: &Vec<char>, from: usize, to: usize, style: TuiStyle) -> (r: Span)
    requires
        from <= to <= chars.len(),
    ensures
        r@ == (SpanView { content: chars@.subrange(from as int, to as int), style }),
{
    Span::styled(string_of_range(chars, from, to), style)
}

fn style_of_flag(flag: char) -> (r: TuiStyle)
    ensures
        r == flag_style(flag),
{
    if flag == '?' || flag == 'q' || flag == '-' {
        TuiStyle::with_fg(TuiColor::DarkGray)
    } else if flag == 'n' {
        TuiStyle::with_fg(TuiColor::Red)
    } else if flag == 'm' {
        TuiStyle::with_fg(TuiColor::Blue)
    } else if flag == 'f' {
        TuiStyle::with_fg(TuiColor::Magenta)
    } else if flag == 'u' || flag == 'h' {
        TuiStyle::with_fg(TuiColor::Green)
    } else if flag == 's' {
        TuiStyle::with_fg(TuiColor::LightGreen)
    } else if flag == 'c' {
        TuiStyle::with_fg(TuiColor::LightBlue)
    } else if flag == 'e' {
        TuiStyle::with_fg(TuiColor::Yellow)
    } else if flag == 'a' || flag == '!' {
        TuiStyle::with_fg(TuiColor::LightRed)
    } else {
        TuiStyle::default()
    }
}

fn style_of_class(class: &str) -> (r: TuiStyle)
    ensures
        r == class_style(class@),
{
    if str_eq(class, "10") {
        TuiStyle::with_fg(TuiColor::Yellow)
    } else if str_eq(class, "11") {
        TuiStyle::with_fg(TuiColor::Magenta)
    } else if str_eq(class, "12") {
        TuiStyle::with_fg(TuiColor::Blue)
    } else if str_eq(class, "13") {
        TuiStyle::with_fg(TuiColor::Green)
    } else {
        TuiStyle::with_fg(TuiColor::Red)
    }
}

fn style_of_highlight(highlighted: bool) -> (r: TuiStyle)
    ensures
        r == highlight_style(highlighted),
{
    if highlighted {
        TuiStyle::with_fg(TuiColor::Reset)
    } else {
        TuiStyle::default()
    }
}

/// Appends the spans of what stands between brackets.
fn push_bracket_spans(out: &mut Vec<Span>, data: &Vec<char>)
    ensures
        span_views(final(out)@) == span_views(old(out)@) + bracket_spans(data@),
{
    let ghost before = span_views(out@);
    let text = string_of(data);
    if str_eq(text.as_str(), "exp") || str_eq(text.as_str(), "rev") || str_eq(text.as_str(), "d")
        || str_eq(text.as_str(), "i") {
        let span = Span::styled(text, TuiStyle::with_fg(TuiColor::Red));
        proof {
            lemma_span_views_push(out@, span);
        }
        out.push(span);
        assert(span_views(out@) =~= before + bracket_spans(data@));
    } else if data.len() == 2 {
        let style = style_of_class(text.as_str());
        let span = Span::styled(text, style);
        proof {
            lemma_span_views_push(out@, span);
        }
        out.push(span);
        assert(span_views(out@) =~= before + bracket_spans(data@));
    } else {
        let mut i: usize = 0;
        while i < data.len()
            invariant
                i <= data.len(),
                span_views(out@) == before + bracket_spans(data@).take(i as int),
                !is_alarm(data@),
                data.len() != 2,
            decreases data.len() - i,
        {
            let span = span_of(data, i, i + 1, style_of_flag(data[i]));
            assert(data@.subrange(i as int, i + 1) == seq![data@[i as int]]);
            proof {
                lemma_span_views_push(out@, span);
                assert(bracket_spans(data@).take(i + 1) == bracket_spans(data@).take(
                    i as int,
                ).push(span@));
            }
            out.push(span);
            i += 1;
        }
        assert(bracket_spans(data@).take(i as int) == bracket_spans(data@));
    }
}

/// Appends the spans of a line from its closing bracket on.
fn push_tail_spans(out: &mut Vec<Span>, rest: &Vec<char>, highlighted: bool)
    ensures
        span_views(final(out)@) == span_views(old(out)@) + tail_spans(rest@, highlighted),
{
    let ghost before = span_views(out@);
    let plain = style_of_highlight(highlighted);
    let slash = find_char(rest, '/');
    let n: usize = rest.len();
    let at_nine = match slash {
        Some(i) => i == 9,
        None => false,
    };
    if at_nine {
        let first = span_of(rest, 0, 1, plain);
        let name = span_of(rest, 1, 9, TuiStyle::with_fg(TuiColor::Cyan));
        let mark = Span::styled(copy_of("/"), TuiStyle::with_fg(TuiColor::DarkGray));
        let last = span_of(rest, 10, n, plain);
        out.push(first);
        out.push(name);
        out.push(mark);
        out.push(last);
        assert(rest@.subrange(0, 1) == rest@.take(1));
        assert(rest@.subrange(10, n as int) == rest@.skip(10));
        assert(span_views(out@) =~= before + tail_spans(rest@, highlighted));
    } else {
        let open = rfind_char(rest, '<');
        let close = rfind_char(rest, '>');
        match (open, close) {
            (Some(a), Some(b)) => {
                if a < b {
                    let head = span_of(rest, 0, a, plain);
                    let left = Span::styled(copy_of("<"), TuiStyle::with_fg(TuiColor::DarkGray));
                    let address = span_of(rest, a + 1, b, TuiStyle::with_fg(TuiColor::Cyan));
                    let right = Span::styled(copy_of(">"), TuiStyle::with_fg(TuiColor::DarkGray));
                    let tail = span_of(rest, b + 1, n, plain);
                    out.push(head);
                    out.push(left);
                    out.push(address);
                    out.push(right);
                    out.push(tail);
                    assert(rest@.subrange(0, a as int) == rest@.take(a as int));
                    assert(rest@.subrange(b + 1, n as int) == rest@.skip(b + 1));
                    assert(span_views(out@) =~= before + tail_spans(rest@, highlighted));
                } else {
                    out.push(Span::styled(string_of(rest), plain));
                    assert(span_views(out@) =~= before + tail_spans(rest@, highlighted));
                }
            },
            _ => {
                out.push(Span::styled(string_of(rest), plain));
                assert(span_views(out@) =~= before + tail_spans(rest@, highlighted));
            },
        }
    }
}

/// The spans of one line of a table row.
fn color_line(line: &str, highlighted: bool) -> (r: Spans)
    ensures
        r@ == colored_line(line@, highlighted),
{
    let chars = chars_of(line);
    let open: usize = match find_char(&chars, '[') {
        Some(i) => i,
        None => 0,
    };
    let close: usize = match find_char(&chars, ']') {
        Some(i) => i,
        None => 0,
    };
    let plain = style_of_highlight(highlighted);
    let mut spans: Vec<Span> = Vec::new();
    if close > open + 1 {
        spans.push(span_of(&chars, 0, open + 1, plain));
        assert(chars@.subrange(0, open + 1) == chars@.take(open + 1));
        assert(span_views(spans@) =~= seq![
            SpanView { content: chars@.take(open + 1), style: plain },
        ]);
        let mut data: Vec<char> = Vec::new();
        let mut i: usize = open + 1;
        while i < close
            invariant
                open + 1 <= i <= close <= chars.len(),
                data@ == chars@.subrange(open + 1, i as int),
            decreases close - i,
        {
            data.push(chars[i]);
            i += 1;
            assert(chars@.subrange(open + 1, i as int) == chars@.subrange(open + 1, i - 1).push(
                chars@[i - 1],
            ));
        }
        push_bracket_spans(&mut spans, &data);
        let mut rest: Vec<char> = Vec::new();
        let mut k: usize = close;
        while k < chars.len()
            invariant
                close <= k <= chars.len(),
                rest@ == chars@.subrange(close as int, k as int),
            decreases chars.len() - k,
        {
            rest.push(chars[k]);
            k += 1;
            assert(chars@.subrange(close as int, k as int) == chars@.subrange(
                close as int,
                k - 1,
            ).push(chars@[k - 1]));
        }
        assert(chars@.subrange(close as int, chars.len() as int) == chars@.skip(close as int));
        push_tail_spans(&mut spans, &rest, highlighted);
    } else {
        spans.push(Span::styled(copy_of(line), plain));
        assert(span_views(spans@) =~= colored_line(line@, highlighted));
    }
    Spans(spans)
}

/// Converts the given multi-line row value to colored text.
///
/// It adds colors to:
/// * flags in bracket characters. (e.g. `[?]`)
/// * parts separated by slash character. (e.g. `rsa2048/abc123`)
/// * values in arrow characters (e.g. `<test@example.com>`)
pub fn get_colored_table_row(row_data: &Vec<String>, highlighted: bool) -> (text: Text)
    ensures
        text@ == views(row_data@).map_values(|line: Seq<char>| colored_line(line, highlighted)),
{
    let mut row: Vec<Spans> = Vec::new();
    let mut i: usize = 0;
    while i < row_data.len()
        invariant
            i <= row_data.len(),
            row.len() == i,
            forall|j: int|
                0 <= j < i ==> (#[trigger] row@[j])@ == colored_line(row_data@[j]@, highlighted),
        decreases row_data.len() - i,
    {
        row.push(color_line(row_data[i].as_str(), highlighted));
        i += 1;
    }
    let text = Text { lines: row };
    assert(text@ =~= views(row_data@).map_values(
        |line: Seq<char>| colored_line(line, highlighted),
    ));
    text
}

/// The spans of one line of information.
fn color_info_line(line: &str, color: TuiColor) -> (r: Spans)
    ensures
        r@ == info_line(line@, color),
{
    let chars = chars_of(line);
    let mut spans: Vec<Span> = Vec::new();
    let reset = TuiStyle::with_fg(TuiColor::Reset);
    match find_char(&chars, ':') {
        Some(i) => {
            if chars[0] != ' ' {
                spans.push(span_of(&chars, 0, i, reset));
                spans.push(Span::styled(copy_of(":"), TuiStyle::with_fg(TuiColor::DarkGray)));
                spans.push(span_of(&chars, i + 1, chars.len(), TuiStyle::with_fg(color)));
                assert(chars@.subrange(0, i as int) == chars@.take(i as int));
                assert(chars@.subrange(i + 1, chars.len() as int) == chars@.skip(i + 1));
                assert(span_views(spans@) =~= info_line(line@, color));
            } else {
                spans.push(Span::styled(copy_of(line), reset));
                assert(span_views(spans@) =~= info_line(line@, color));
            }
        },
        None => {
            spans.push(Span::styled(copy_of(line), reset));
            assert(span_views(spans@) =~= info_line(line@, color));
        },
    }
    Spans(spans)
}

/// Converts the given information text to colored text.
///
/// It adds colors to:
/// * parts separated by ':' character. (e.g. `version: 2`)
/// Skips the lines that starts with ' '.
pub fn get_colored_info(info: &str, color: TuiColor) -> (text: Text)
    ensures
        text@ == lines_of(info@).map_values(|line: Seq<char>| info_line(line, color)),
{
    let all = lines(info);
    let mut out: Vec<Spans> = Vec::new();
    let mut i: usize = 0;
    while i < all.len()
        invariant
            i <= all.len(),
            out.len() == i,
            forall|j: int| 0 <= j < i ==> (#[trigger] out@[j])@ == info_line(all@[j]@, color),
        decreases all.len() - i,
    {
        out.push(color_info_line(all[i].as_str(), color));
        i += 1;
    }
    let text = Text { lines: out };
    assert(text@ =~= views(all@).map_values(|line: Seq<char>| info_line(line, color)));
    text
}

} // verus!
