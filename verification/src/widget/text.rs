//! Styled text: what the renderer draws, as plain values.

use crate::widget::style::TuiColor;
use vstd::prelude::*;

verus! {

/// The bit of the bold modifier.
pub const BOLD: u16 = 1;

/// The bit of the italic modifier.
pub const ITALIC: u16 = 4;

/// The style of a piece of text.
#[derive(Clone, Copy, Debug, PartialEq, Eq, Structural)]
pub struct TuiStyle {
    /// Foreground color, where one is set.
    pub fg: Option<TuiColor>,
    /// Background color, where one is set.
    pub bg: Option<TuiColor>,
    /// Modifiers that are switched on, one bit each.
    pub add_modifier: u16,
    /// Modifiers that are switched off, one bit each.
    pub sub_modifier: u16,
}

impl TuiStyle {
    /// The style that changes nothing.
    pub open spec fn plain() -> TuiStyle {
        TuiStyle { fg: None, bg: None, add_modifier: 0, sub_modifier: 0 }
    }

    /// The style that sets the foreground color and nothing else.
    pub open spec fn colored(color: TuiColor) -> TuiStyle {
        TuiStyle { fg: Some(color), bg: None, add_modifier: 0, sub_modifier: 0 }
    }

    /// The style that sets the foreground color and nothing else.
    pub fn with_fg(color: TuiColor) -> (r: TuiStyle)
        ensures
            r == Self::colored(color),
    {
        TuiStyle { fg: Some(color), bg: None, add_modifier: 0, sub_modifier: 0 }
    }

    /// This style with the foreground color `color`.
    pub fn fg(self, color: TuiColor) -> (r: TuiStyle)
        ensures
            r == (TuiStyle { fg: Some(color), ..self }),
    {
        TuiStyle { fg: Some(color), ..self }
    }
}

impl Default for TuiStyle {
    fn default() -> (r: Self)
        ensures
            r == TuiStyle::plain(),
    {
        TuiStyle { fg: None, bg: None, add_modifier: 0, sub_modifier: 0 }
    }
}

/// A piece of text in one style.
#[derive(Clone, Debug, PartialEq, Eq)]
pub struct Span {
    /// The text.
    pub content: String,
    /// The style of the text.
    pub style: TuiStyle,
}

/// What a span holds.
pub struct SpanView {
    pub content: Seq<char>,
    pub style: TuiStyle,
}

impl View for Span {
    type V = SpanView;

    open spec fn view(&self) -> SpanView {
        SpanView { content: self.content@, style: self.style }
    }
}

impl Span {
    /// A piece of text in a style.
    pub fn styled(content: String, style: TuiStyle) -> (r: Span)
        ensures
            r@ == (SpanView { content: content@, style }),
    {
        Span { content, style }
    }

    /// A piece of text without a style.
    pub fn raw(content: String) -> (r: Span)
        ensures
            r@ == (SpanView { content: content@, style: TuiStyle::plain() }),
    {
        Span { content, style: TuiStyle::default() }
    }
}

/// The views of a sequence of spans.
pub open spec fn span_views(spans: Seq<Span>) -> Seq<SpanView> {
    Seq::new(spans.len(), |i: int| spans[i]@)
}

/// A line of text: spans side by side.
#[derive(Clone, Debug, PartialEq, Eq)]
pub struct Spans(pub Vec<Span>);

impl View for Spans {
    type V = Seq<SpanView>;

    open spec fn view(&self) -> Seq<SpanView> {
        span_views(self.0@)
    }
}

/// The views of a sequence of lines.
pub open spec fn line_views(lines: Seq<Spans>) -> Seq<Seq<SpanView>> {
    Seq::new(lines.len(), |i: int| lines[i]@)
}

/// Text of several lines.
#[derive(Clone, Debug, PartialEq, Eq)]
pub struct Text {
    /// The lines of the text.
    pub lines: Vec<Spans>,
}

impl View for Text {
    type V = Seq<Seq<SpanView>>;

    open spec fn view(&self) -> Seq<Seq<SpanView>> {
        line_views(self.lines@)
    }
}

impl Text {
    /// The number of lines of the text.
    pub fn height(&self) -> (r: usize)
        ensures
            r == self@.len(),
    {
        self.lines.len()
    }
}

pub proof fn lemma_span_views_push(spans: Seq<Span>, span: Span)
    ensures
        span_views(spans.push(span)) == span_views(spans).push(span@),
{
    assert(span_views(spans.push(span)) =~= span_views(spans).push(span@));
}

pub proof fn lemma_line_views_push(lines: Seq<Spans>, line: Spans)
    ensures
        line_views(lines.push(line)) == line_views(lines).push(line@),
{
    assert(line_views(lines.push(line)) =~= line_views(lines).push(line@));
}

} // verus!
