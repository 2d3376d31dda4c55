//! The viewport row engine: what of a multi-line cell is shown inside a
//! window of limited width and height, at a given scroll offset.

use crate::text::{
    chars_of, concat, copy_of, parse_u16, split_whitespace, str_eq, string_of_range, u16_value,
    views, words,
};
use vstd::prelude::*;

verus! {

/// Scrolling direction and offset.
#[derive(Clone, Copy, Debug, PartialEq, Eq, Structural)]
pub enum ScrollDirection {
    /// Scroll up.
    Up(u16),
    /// Scroll right.
    Right(u16),
    /// Scroll down.
    Down(u16),
    /// Scroll left.
    Left(u16),
    /// Scroll to top.
    Top,
    /// Scroll to bottom.
    Bottom,
}

/// The amount that the second word of a scroll request gives: its value
/// as a `u16`, and 1 where there is none or it is no such number.
pub open spec fn scroll_amount_of(tokens: Seq<Seq<char>>) -> u16 {
    if tokens.len() > 1 {
        match u16_value(tokens[1]) {
            Some(n) => n,
            None => 1,
        }
    } else {
        1
    }
}

/// The direction that the words of a scroll request denote.
pub open spec fn scroll_direction_of(tokens: Seq<Seq<char>>) -> Option<ScrollDirection> {
    if tokens.len() == 0 {
        None
    } else if tokens[0] == "up"@ || tokens[0] == "u"@ {
        Some(ScrollDirection::Up(scroll_amount_of(tokens)))
    } else if tokens[0] == "right"@ || tokens[0] == "r"@ {
        Some(ScrollDirection::Right(scroll_amount_of(tokens)))
    } else if tokens[0] == "down"@ || tokens[0] == "d"@ {
        Some(ScrollDirection::Down(scroll_amount_of(tokens)))
    } else if tokens[0] == "left"@ || tokens[0] == "l"@ {
        Some(ScrollDirection::Left(scroll_amount_of(tokens)))
    } else if tokens[0] == "top"@ || tokens[0] == "t"@ {
        Some(ScrollDirection::Top)
    } else if tokens[0] == "bottom"@ || tokens[0] == "b"@ {
        Some(ScrollDirection::Bottom)
    } else {
        None
    }
}

impl ScrollDirection {
    /// Reads a direction from words that are already split.
    pub fn from_words(tokens: &Vec<String>) -> (r: Option<ScrollDirection>)
        ensures
            r == scroll_direction_of(views(tokens@)),
    {
        if tokens.len() == 0 {
            return None;
        }
        let value: u16 = if tokens.len() > 1 {
            match parse_u16(tokens[1].as_str()) {
                Some(n) => n,
                None => 1,
            }
        } else {
            1
        };
        let first = tokens[0].as_str();
        if str_eq(first, "up") || str_eq(first, "u") {
            Some(ScrollDirection::Up(value))
        } else if str_eq(first, "right") || str_eq(first, "r") {
            Some(ScrollDirection::Right(value))
        } else if str_eq(first, "down") || str_eq(first, "d") {
            Some(ScrollDirection::Down(value))
        } else if str_eq(first, "left") || str_eq(first, "l") {
            Some(ScrollDirection::Left(value))
        } else if str_eq(first, "top") || str_eq(first, "t") {
            Some(ScrollDirection::Top)
        } else if str_eq(first, "bottom") || str_eq(first, "b") {
            Some(ScrollDirection::Bottom)
        } else {
            None
        }
    }

    /// Reads a direction and an optional amount, such as `"right 5"`.
    pub fn from_str(s: &str) -> (r: Result<ScrollDirection, ()>)
        ensures
            match scroll_direction_of(words(s@)) {
                Some(direction) => r == Ok::<ScrollDirection, ()>(direction),
                None => r is Err,
            },
    {
        let tokens = split_whitespace(s);
        match ScrollDirection::from_words(&tokens) {
            Some(direction) => Ok(direction),
            None => Err(()),
        }
    }
}

/// Vertical/horizontal scroll values.
#[derive(Clone, Copy, Debug, PartialEq, Eq, Structural)]
pub struct ScrollAmount {
    /// Vertical scroll amount.
    pub vertical: u16,
    /// Horizontal scroll amount.
    pub horizontal: u16,
}

impl Default for ScrollAmount {
    fn default() -> (r: Self)
        ensures
            r == (ScrollAmount { vertical: 0, horizontal: 0 }),
    {
        ScrollAmount { vertical: 0, horizontal: 0 }
    }
}

/// By how many lines the content overflows the window, plus one:
/// 1 exactly when the content fits.
pub open spec fn height_overflow(len: nat, max_height: nat) -> nat {
    if len > max_height {
        (len - max_height + 1) as nat
    } else {
        1
    }
}

/// How many leading lines a vertical scroll of `vertical` hides: never more
/// than the overflow, nor more than there are lines.
pub open spec fn vertical_offset(len: nat, max_height: nat, vertical: nat) -> nat {
    let overflow = height_overflow(len, max_height);
    let wanted = if vertical <= overflow {
        vertical
    } else {
        overflow
    };
    if wanted <= len {
        wanted
    } else {
        len
    }
}

/// The lines left after hiding the first `by`, the first of them
/// replaced by the marker `...`.
pub open spec fn scrolled_vertically(lines: Seq<Seq<char>>, by: nat) -> Seq<Seq<char>>
    recommends
        by <= lines.len(),
{
    let rest = lines.skip(by as int);
    if rest.len() > 0 {
        rest.update(0, "..."@)
    } else {
        rest
    }
}

/// The first `height` lines, the last of them replaced by the marker `...`.
pub open spec fn height_limited(lines: Seq<Seq<char>>, height: nat) -> Seq<Seq<char>>
    recommends
        height <= lines.len(),
{
    if height == 0 {
        Seq::empty()
    } else {
        lines.take(height as int).update(height - 1, "..."@)
    }
}

/// A line scrolled right by `by`: a dot and what follows its first
/// `by + 1` characters, or nothing where the line is no longer than that.
pub open spec fn scrolled_line(line: Seq<char>, by: nat) -> Seq<char> {
    if line.len() > by + 1 {
        "."@ + line.skip(by as int + 1)
    } else {
        Seq::empty()
    }
}

/// A line cut to `width` characters, with `..` behind it where it was cut.
pub open spec fn width_limited_line(line: Seq<char>, width: nat) -> Seq<char> {
    if line.len() > width {
        line.take(width as int) + ".."@
    } else {
        line
    }
}

/// Whether some line has at least `width` characters.
pub open spec fn reaches_width(lines: Seq<Seq<char>>, width: nat) -> bool {
    exists|i: int| 0 <= i < lines.len() && (#[trigger] lines[i]).len() >= width
}

/// The vertical part of the layout.
pub open spec fn layout_vertical(lines: Seq<Seq<char>>, max_height: nat, vertical: nat) -> Seq<
    Seq<char>,
> {
    if lines.len() <= max_height {
        lines
    } else {
        let scrolled = if vertical > 0 {
            scrolled_vertically(lines, vertical_offset(lines.len(), max_height, vertical))
        } else {
            lines
        };
        if vertical < height_overflow(lines.len(), max_height) {
            height_limited(scrolled, max_height)
        } else {
            scrolled
        }
    }
}

/// The horizontal part of the layout.
pub open spec fn layout_horizontal(lines: Seq<Seq<char>>, max_width: nat, horizontal: nat) -> Seq<
    Seq<char>,
> {
    let scrolled = if horizontal > 0 && reaches_width(lines, max_width) {
        lines.map_values(|line: Seq<char>| scrolled_line(line, horizontal))
    } else {
        lines
    };
    scrolled.map_values(|line: Seq<char>| width_limited_line(line, max_width))
}

/// The lines that a window of `max_width` by `max_height` shows of `lines`
/// at the scroll offset `scroll`.
pub open spec fn layout(
    lines: Seq<Seq<char>>,
    max_width: Option<u16>,
    max_height: u16,
    scroll: ScrollAmount,
) -> Seq<Seq<char>> {
    let shown = layout_vertical(lines, max_height as nat, scroll.vertical as nat);
    match max_width {
        Some(width) => layout_horizontal(shown, width as nat, scroll.horizontal as nat),
        None => shown,
    }
}

/// Content that fits the window and is not scrolled is shown as it is.
pub proof fn lemma_layout_within_bounds(
    lines: Seq<Seq<char>>,
    max_width: Option<u16>,
    max_height: u16,
)
    requires
        lines.len() <= max_height,
        max_width matches Some(width) ==> forall|i: int|
            0 <= i < lines.len() ==> (#[trigger] lines[i]).len() <= width,
    ensures
        layout(lines, max_width, max_height, ScrollAmount { vertical: 0, horizontal: 0 })
            == lines,
{
    match max_width {
        Some(width) => {
            assert(layout_horizontal(lines, width as nat, 0) =~= lines);
        },
        None => {},
    }
}

/// A vertical scroll never hides more lines than the overflow, whatever
/// offset was asked for; and a window that is overflowed and not scrolled
/// past the overflow shows exactly `max_height` lines, the first of them
/// the marker where the scroll is not zero.
pub proof fn lemma_vertical_scroll_bounded(
    lines: Seq<Seq<char>>,
    max_height: u16,
    vertical: u16,
)
    ensures
        vertical_offset(lines.len(), max_height as nat, vertical as nat) <= height_overflow(
            lines.len(),
            max_height as nat,
        ),
        vertical_offset(lines.len(), max_height as nat, vertical as nat) <= vertical,
        lines.len() > max_height && vertical < height_overflow(lines.len(), max_height as nat)
            ==> layout_vertical(lines, max_height as nat, vertical as nat).len() == max_height,
        lines.len() > max_height && max_height > 0 && 0 < vertical < height_overflow(
            lines.len(),
            max_height as nat,
        ) ==> layout_vertical(lines, max_height as nat, vertical as nat)[0] == "..."@,
{
}

/// Row item.
#[derive(Clone, Debug)]
pub struct RowItem {
    /// Row data.
    pub data: Vec<String>,
    /// Maximum width of the row.
    pub max_width: Option<u16>,
    /// Maximum height of the row.
    pub max_height: u16,
    /// Scroll amount.
    pub scroll: ScrollAmount,
}

impl RowItem {
    /// Constructs a new instance of `RowItem`: `data` laid out for a window
    /// of `max_width` by `max_height` at the offset `scroll`.
    pub fn new(
        data: Vec<String>,
        max_width: Option<u16>,
        max_height: u16,
        scroll: ScrollAmount,
    ) -> (item: Self)
        ensures
            views(item.data@) == layout(views(data@), max_width, max_height, scroll),
            item.max_width == max_width,
            item.max_height == max_height,
            item.scroll == scroll,
    {
        let mut item = Self { data, max_width, max_height, scroll };
        item.process();
        item
    }

    /// Processes the row data.
    ///
    /// It involves scrolling vertically/horizontally
    /// and limiting the row width/height.
    fn process(&mut self)
        ensures
            views(final(self).data@) == layout(
                views(old(self).data@),
                old(self).max_width,
                old(self).max_height,
                old(self).scroll,
            ),
            final(self).max_width == old(self).max_width,
            final(self).max_height == old(self).max_height,
            final(self).scroll == old(self).scroll,
    {
        let len: usize = self.data.len();
        let max_height: usize = self.max_height as usize;
        if len > max_height {
            let excess: usize = len - max_height;
            let vertical: usize = self.scroll.vertical as usize;
            if vertical != 0 {
                self.scroll_vertical(
                    if vertical <= excess {
                        vertical
                    } else {
                        excess + 1
                    },
                );
            }
            if vertical <= excess {
                assert(views(self.data@).len() == self.data.len());
                self.limit_height(self.max_height);
            }
        }
        if let Some(width) = self.max_width {
            if self.scroll.horizontal != 0 && self.reaches_width(width) {
                self.scroll_horizontal();
            }
            self.limit_width(width);
        }
    }

    /// Whether some line has at least `width` characters.
    fn reaches_width(&self, width: u16) -> (r: bool)
        ensures
            r == reaches_width(views(self.data@), width as nat),
    {
        let mut i: usize = 0;
        while i < self.data.len()
            invariant
                i <= self.data.len(),
                forall|j: int| 0 <= j < i ==> (#[trigger] views(self.data@)[j]).len() < width,
            decreases self.data.len() - i,
        {
            if self.data[i].as_str().unicode_len() >= width as usize {
                assert(views(self.data@)[i as int].len() >= width);
                return true;
            }
            i += 1;
        }
        false
    }

    /// Scrolls the row vertically: hides the first `by` lines, or all of
    /// them where there are fewer.
    fn scroll_vertical(&mut self, by: usize)
        ensures
            views(final(self).data@) == scrolled_vertically(
                views(old(self).data@),
                if by <= old(self).data.len() {
                    by as nat
                } else {
                    old(self).data.len() as nat
                },
            ),
            final(self).max_width == old(self).max_width,
            final(self).max_height == old(self).max_height,
            final(self).scroll == old(self).scroll,
    {
        let from: usize = if by <= self.data.len() {
            by
        } else {
            self.data.len()
        };
        let mut out: Vec<String> = Vec::new();
        let mut i: usize = from;
        while i < self.data.len()
            invariant
                from <= i <= self.data.len(),
                out.len() == i - from,
                forall|j: int|
                    0 <= j < out.len() ==> (#[trigger] out@[j])@ == if j == 0 {
                        "..."@
                    } else {
                        self.data@[from + j]@
                    },
            decreases self.data.len() - i,
        {
            if i == from {
                out.push(copy_of("..."));
            } else {
                out.push(self.data[i].clone());
            }
            i += 1;
        }
        assert(views(out@) =~= scrolled_vertically(views(self.data@), from as nat));
        self.data = out;
    }

    /// Scrolls the row horizontally.
    fn scroll_horizontal(&mut self)
        ensures
            views(final(self).data@) == views(old(self).data@).map_values(
                |line: Seq<char>| scrolled_line(line, old(self).scroll.horizontal as nat),
            ),
            final(self).max_width == old(self).max_width,
            final(self).max_height == old(self).max_height,
            final(self).scroll == old(self).scroll,
    {
        let skip: usize = self.scroll.horizontal as usize + 1;
        let mut out: Vec<String> = Vec::new();
        let mut i: usize = 0;
        while i < self.data.len()
            invariant
                i <= self.data.len(),
                out.len() == i,
                skip == self.scroll.horizontal + 1,
                forall|j: int|
                    0 <= j < i ==> (#[trigger] out@[j])@ == scrolled_line(
                        self.data@[j]@,
                        self.scroll.horizontal as nat,
                    ),
            decreases self.data.len() - i,
        {
            let chars = chars_of(self.data[i].as_str());
            if chars.len() > skip {
                let rest = string_of_range(&chars, skip, chars.len());
                out.push(concat(".", rest.as_str()));
            } else {
                out.push(String::new());
            }
            i += 1;
        }
        assert(views(out@) =~= views(self.data@).map_values(
            |line: Seq<char>| scrolled_line(line, self.scroll.horizontal as nat),
        ));
        self.data = out;
    }

    /// Limits the row width to match the maximum width.
    fn limit_width(&mut self, width: u16)
        ensures
            views(final(self).data@) == views(old(self).data@).map_values(
                |line: Seq<char>| width_limited_line(line, width as nat),
            ),
            final(self).max_width == old(self).max_width,
            final(self).max_height == old(self).max_height,
            final(self).scroll == old(self).scroll,
    {
        let mut out: Vec<String> = Vec::new();
        let mut i: usize = 0;
        while i < self.data.len()
            invariant
                i <= self.data.len(),
                out.len() == i,
                forall|j: int|
                    0 <= j < i ==> (#[trigger] out@[j])@ == width_limited_line(
                        self.data@[j]@,
                        width as nat,
                    ),
            decreases self.data.len() - i,
        {
            let chars = chars_of(self.data[i].as_str());
            if chars.len() > width as usize {
                let kept = string_of_range(&chars, 0, width as usize);
                out.push(concat(kept.as_str(), ".."));
            } else {
                out.push(self.data[i].clone());
            }
            i += 1;
        }
        assert(views(out@) =~= views(self.data@).map_values(
            |line: Seq<char>| width_limited_line(line, width as nat),
        ));
        self.data = out;
    }

    /// Limits the row height to match the maximum height.
    fn limit_height(&mut self, height: u16)
        requires
            height <= old(self).data.len(),
        ensures
            views(final(self).data@) == height_limited(views(old(self).data@), height as nat),
            final(self).max_width == old(self).max_width,
            final(self).max_height == old(self).max_height,
            final(self).scroll == old(self).scroll,
    {
        let mut out: Vec<String> = Vec::new();
        let mut i: usize = 0;
        while i < height as usize
            invariant
                i <= height <= self.data.len(),
                out.len() == i,
                forall|j: int|
                    0 <= j < i ==> (#[trigger] out@[j])@ == if j == height - 1 {
                        "..."@
                    } else {
                        self.data@[j]@
                    },
            decreases height - i,
        {
            if i == height as usize - 1 {
                out.push(copy_of("..."));
            } else {
                out.push(self.data[i].clone());
            }
            i += 1;
        }
        assert(views(out@) =~= height_limited(views(self.data@), height as nat));
        self.data = out;
    }
}

} // verus!
