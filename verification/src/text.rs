//! Text helpers shared by the parsers and the layout code.
//!
//! Strings are modelled by their view, a sequence of Unicode scalar values.
//! Everything that slices, splits or joins text works on whole characters,
//! so no operation here can cut a code point in half.

use vstd::prelude::*;

verus! {

/// The lowercase form of a text, as `str::to_lowercase` computes it.
pub uninterp spec fn lowercase(s: Seq<char>) -> Seq<char>;

/// The uppercase form of a text, as `str::to_uppercase` computes it.
pub uninterp spec fn uppercase(s: Seq<char>) -> Seq<char>;

/// Whether a character has the Unicode `White_Space` property,
/// as `char::is_whitespace` reports it.
pub uninterp spec fn is_whitespace(c: char) -> bool;

/// The quoted and escaped form of a text, as `{:?}` prints a `str`.
pub uninterp spec fn debug_quoted(s: Seq<char>) -> Seq<char>;

/// `str::to_lowercase` is a function of the characters alone;
/// its result is known only under the name [`lowercase`].
pub assume_specification[ str::to_lowercase ](s: &str) -> (r: String)
    ensures
        r@ == lowercase(s@),
;

/// `str::to_uppercase` is a function of the characters alone;
/// its result is known only under the name [`uppercase`].
pub assume_specification[ str::to_uppercase ](s: &str) -> (r: String)
    ensures
        r@ == uppercase(s@),
;

/// `char::is_whitespace` is a function of the character alone;
/// its result is known only under the name [`is_whitespace`].
pub assume_specification[ char::is_whitespace ](c: char) -> (b: bool)
    ensures
        b == is_whitespace(c),
;

/// `String::push` appends exactly the given character.
pub assume_specification[ String::push ](s: &mut String, c: char)
    ensures
        final(s)@ == old(s)@.push(c),
;

/// Formats a text with `{:?}`: the result is the text in double quotes
/// with its special characters escaped, known under the name
/// [`debug_quoted`].
#[verifier::external_body]
pub(crate) fn debug_quote(s: &str) -> (r: String)
    ensures
        r@ == debug_quoted(s@),
{
    format!("{:?}", s)
}

/// The views of a sequence of strings.
pub open spec fn views(v: Seq<String>) -> Seq<Seq<char>> {
    Seq::new(v.len(), |i: int| v[i]@)
}

pub proof fn lemma_views_push(v: Seq<String>, s: String)
    ensures
        views(v.push(s)) == views(v).push(s@),
{
    assert(views(v.push(s)) =~= views(v).push(s@));
}

/// The characters of a string, in order.
pub fn chars_of(s: &str) -> (v: Vec<char>)
    ensures
        v@ == s@,
{
    let mut out: Vec<char> = Vec::new();
    for c in it: s.chars()
        invariant
            it.seq() == s@,
            out@ == s@.take(it.index() as int),
    {
        out.push(c);
    }
    out
}

/// The string made of `v[from..to]`.
pub fn string_of_range(v: &Vec<char>, from: usize, to: usize) -> (r: String)
    requires
        from <= to <= v.len(),
    ensures
        r@ == v@.subrange(from as int, to as int),
{
    let mut out = String::new();
    let mut i: usize = from;
    while i < to
        invariant
            from <= i <= to <= v.len(),
            out@ == v@.subrange(from as int, i as int),
        decreases to - i,
    {
        out.push(v[i]);
        i += 1;
        assert(v@.subrange(from as int, i as int) == v@.subrange(from as int, i - 1).push(
            v@[i - 1],
        ));
    }
    out
}

/// The string made of all of `v`.
pub fn string_of(v: &Vec<char>) -> (r: String)
    ensures
        r@ == v@,
{
    let r = string_of_range(v, 0, v.len());
    assert(v@.subrange(0, v.len() as int) == v@);
    r
}

/// A fresh copy of a string.
pub fn copy_of(s: &str) -> (r: String)
    ensures
        r@ == s@,
{
    s.to_owned()
}

/// Whether two strings hold the same characters.
pub fn str_eq(a: &str, b: &str) -> (r: bool)
    ensures
        r == (a@ == b@),
{
    let x = a.to_owned();
    let y = b.to_owned();
    x == y
}

/// `a` followed by `b`.
pub fn concat(a: &str, b: &str) -> (r: String)
    ensures
        r@ == a@ + b@,
{
    let mut out = a.to_owned();
    out.append(b);
    out
}

/// The first character of a text, if it has one.
pub open spec fn first_char(s: Seq<char>) -> Option<char> {
    if s.len() > 0 {
        Some(s[0])
    } else {
        None
    }
}

/// Whether the text begins with the character `c`.
pub fn starts_with_char(s: &str, c: char) -> (r: bool)
    ensures
        r == (first_char(s@) == Some(c)),
{
    let v = chars_of(s);
    v.len() > 0 && v[0] == c
}

/// The words found in `rest` when `cur` holds the characters of the word
/// that is being read.
pub open spec fn scan_words(rest: Seq<char>, cur: Seq<char>) -> Seq<Seq<char>>
    decreases rest.len(),
{
    if rest.len() == 0 {
        word_if_any(cur)
    } else if is_whitespace(rest[0]) {
        word_if_any(cur) + scan_words(rest.skip(1), Seq::empty())
    } else {
        scan_words(rest.skip(1), cur.push(rest[0]))
    }
}

/// A finished word: nothing when no character was read.
pub open spec fn word_if_any(cur: Seq<char>) -> Seq<Seq<char>> {
    if cur.len() > 0 {
        seq![cur]
    } else {
        Seq::empty()
    }
}

/// The maximal runs of non-whitespace characters of a text, in order.
pub open spec fn words(s: Seq<char>) -> Seq<Seq<char>> {
    scan_words(s, Seq::empty())
}

/// Splits a text on whitespace; no word is empty.
pub fn split_whitespace(s: &str) -> (out: Vec<String>)
    ensures
        views(out@) == words(s@),
{
    let v = chars_of(s);
    let mut out: Vec<String> = Vec::new();
    let mut start: usize = 0;
    let mut i: usize = 0;
    assert(v@.skip(0) == v@);
    assert(v@.subrange(0, 0) == Seq::<char>::empty());
    assert(views(out@) == Seq::<Seq<char>>::empty());
    while i < v.len()
        invariant
            start <= i <= v.len(),
            words(v@) == views(out@) + scan_words(v@.skip(i as int), v@.subrange(start as int, i as int)),
        decreases v.len() - i,
    {
        let ghost rest = v@.skip(i as int);
        let ghost cur = v@.subrange(start as int, i as int);
        let ghost before = views(out@);
        assert(rest[0] == v@[i as int]);
        assert(rest.skip(1) == v@.skip(i + 1));
        if v[i].is_whitespace() {
            if start < i {
                let word = string_of_range(&v, start, i);
                proof {
                    lemma_views_push(out@, word);
                }
                out.push(word);
            }
            start = i + 1;
            assert(v@.subrange(start as int, i + 1) == Seq::<char>::empty());
            assert(views(out@) + scan_words(v@.skip(i + 1), Seq::empty()) == before + (word_if_any(
                cur,
            ) + scan_words(rest.skip(1), Seq::empty()))) by {
                if cur.len() > 0 {
                    assert(views(out@) == before + seq![cur]);
                }
            }
        } else {
            assert(v@.subrange(start as int, i + 1) == cur.push(rest[0]));
        }
        i += 1;
    }
    if start < i {
        let word = string_of_range(&v, start, i);
        proof {
            lemma_views_push(out@, word);
        }
        out.push(word);
    }
    out
}

/// The texts of `parts` with `sep` between each two neighbours.
pub open spec fn joined(parts: Seq<Seq<char>>, sep: Seq<char>) -> Seq<char>
    decreases parts.len(),
{
    if parts.len() == 0 {
        Seq::empty()
    } else if parts.len() == 1 {
        parts[0]
    } else {
        joined(parts.drop_last(), sep) + sep + parts.last()
    }
}

/// Joins `parts[from..]` with `sep`.
pub fn join_from(parts: &Vec<String>, from: usize, sep: &str) -> (r: String)
    ensures
        r@ == joined(
            views(parts@).subrange(
                if from <= parts.len() {
                    from as int
                } else {
                    parts.len() as int
                },
                parts.len() as int,
            ),
            sep@,
        ),
{
    let mut out = String::new();
    if from >= parts.len() {
        return out;
    }
    let mut i: usize = from;
    while i < parts.len()
        invariant
            from <= i <= parts.len(),
            from < parts.len(),
            out@ == joined(views(parts@).subrange(from as int, i as int), sep@),
        decreases parts.len() - i,
    {
        let ghost done = views(parts@).subrange(from as int, i as int);
        let ghost next = views(parts@).subrange(from as int, i + 1);
        assert(next.drop_last() == done);
        assert(next.last() == parts@[i as int]@);
        if i > from {
            out.append(sep);
        }
        out.append(parts[i].as_str());
        i += 1;
    }
    out
}

/// Joins all of `parts` with `sep`.
pub fn join(parts: &Vec<String>, sep: &str) -> (r: String)
    ensures
        r@ == joined(views(parts@), sep@),
{
    let r = join_from(parts, 0, sep);
    assert(views(parts@).subrange(0, parts.len() as int) == views(parts@));
    r
}

/// The decimal digits of `n`, most significant first.
pub open spec fn decimal(n: nat) -> Seq<char>
    decreases n,
{
    if n < 10 {
        seq![digit_char(n)]
    } else {
        decimal(n / 10).push(digit_char(n % 10))
    }
}

/// The character of a single decimal digit.
pub open spec fn digit_char(d: nat) -> char {
    if d == 0 {
        '0'
    } else if d == 1 {
        '1'
    } else if d == 2 {
        '2'
    } else if d == 3 {
        '3'
    } else if d == 4 {
        '4'
    } else if d == 5 {
        '5'
    } else if d == 6 {
        '6'
    } else if d == 7 {
        '7'
    } else if d == 8 {
        '8'
    } else {
        '9'
    }
}

fn digit_of(d: u64) -> (c: char)
    requires
        d < 10,
    ensures
        c == digit_char(d as nat),
{
    if d == 0 {
        '0'
    } else if d == 1 {
        '1'
    } else if d == 2 {
        '2'
    } else if d == 3 {
        '3'
    } else if d == 4 {
        '4'
    } else if d == 5 {
        '5'
    } else if d == 6 {
        '6'
    } else if d == 7 {
        '7'
    } else if d == 8 {
        '8'
    } else {
        '9'
    }
}

/// Writes a number in decimal.
pub fn decimal_string(n: u64) -> (r: String)
    ensures
        r@ == decimal(n as nat),
    decreases n,
{
    if n < 10 {
        let mut out = String::new();
        out.push(digit_of(n));
        out
    } else {
        let mut out = decimal_string(n / 10);
        out.push(digit_of(n % 10));
        out
    }
}

/// The value of a decimal digit character, if it is one.
pub open spec fn digit_value(c: char) -> Option<nat> {
    if '0' <= c <= '9' {
        Some((c as nat - '0' as nat) as nat)
    } else {
        None
    }
}

/// The value of a non-empty run of decimal digits; `None` when a
/// character is no digit or the run is empty.
pub open spec fn digits_value(s: Seq<char>) -> Option<nat>
    decreases s.len(),
{
    if s.len() == 0 {
        None
    } else if s.len() == 1 {
        digit_value(s[0])
    } else {
        match (digits_value(s.drop_last()), digit_value(s.last())) {
            (Some(high), Some(low)) => Some(high * 10 + low),
            _ => None,
        }
    }
}

/// What a text denotes as an unsigned number: an optional `+` sign and at
/// least one decimal digit, nothing else.
pub open spec fn unsigned_value(s: Seq<char>) -> Option<nat> {
    if s.len() > 0 && s[0] == '+' {
        digits_value(s.skip(1))
    } else {
        digits_value(s)
    }
}

/// What a text denotes as a `u16`: its unsigned value where that fits.
pub open spec fn u16_value(s: Seq<char>) -> Option<u16> {
    match unsigned_value(s) {
        Some(n) if n <= u16::MAX => Some(n as u16),
        _ => None,
    }
}

proof fn lemma_digits_none_stays(s: Seq<char>, k: int)
    requires
        1 <= k <= s.len(),
        digits_value(s.take(k)) is None,
    ensures
        digits_value(s) is None,
    decreases s.len() - k,
{
    if k < s.len() {
        assert(s.take(k + 1).drop_last() == s.take(k));
        lemma_digits_none_stays(s, k + 1);
    } else {
        assert(s.take(k) == s);
    }
}

proof fn lemma_digits_large_stays(s: Seq<char>, k: int)
    requires
        1 <= k <= s.len(),
        digits_value(s.take(k)) matches Some(n) && n > u16::MAX,
    ensures
        digits_value(s) matches Some(n) ==> n > u16::MAX,
    decreases s.len() - k,
{
    if k < s.len() {
        assert(s.take(k + 1).drop_last() == s.take(k));
        if digits_value(s.take(k + 1)) is Some {
            lemma_digits_large_stays(s, k + 1);
        } else {
            lemma_digits_none_stays(s, k + 1);
        }
    } else {
        assert(s.take(k) == s);
    }
}

/// Reads a `u16` written in decimal.
pub fn parse_u16(s: &str) -> (r: Option<u16>)
    ensures
        r == u16_value(s@),
{
    let v = chars_of(s);
    let from: usize = if v.len() > 0 && v[0] == '+' {
        1
    } else {
        0
    };
    let ghost digits = v@.skip(from as int);
    assert(v@.skip(0) == v@);
    assert(unsigned_value(v@) == digits_value(digits));
    if from == v.len() {
        return None;
    }
    let mut value: u32 = 0;
    let mut i: usize = from;
    while i < v.len()
        invariant
            from <= i <= v.len(),
            from < v.len(),
            v@ == s@,
            digits == v@.skip(from as int),
            unsigned_value(v@) == digits_value(digits),
            value <= u16::MAX,
            i == from ==> value == 0,
            i > from ==> digits_value(digits.take(i - from)) == Some(value as nat),
        decreases v.len() - i,
    {
        let c = v[i];
        let ghost k = i - from;
        assert(digits[k] == c);
        assert(digits.take(k + 1).drop_last() == digits.take(k));
        assert(digits.take(k + 1).last() == c);
        assert(digits_value(digits.take(k + 1)) == if k == 0 {
            digit_value(c)
        } else {
            match digit_value(c) {
                Some(low) => Some(value as nat * 10 + low),
                None => None,
            }
        }) by {
            if k == 0 {
                assert(digits.take(1)[0] == c);
            }
        }
        if c < '0' || c > '9' {
            proof {
                lemma_digits_none_stays(digits, k + 1);
            }
            return None;
        }
        let d: u32 = (c as u32) - ('0' as u32);
        value = value * 10 + d;
        if value > 65535 {
            proof {
                lemma_digits_large_stays(digits, k + 1);
            }
            return None;
        }
        i += 1;
    }
    assert(digits.take(i - from) == digits);
    Some(value as u16)
}

/// The lower-case form of an ASCII capital letter; any other character
/// stays as it is.
pub open spec fn ascii_lower(c: char) -> char {
    if 'A' <= c <= 'Z' {
        ((c as u8) + 32) as u8 as char
    } else {
        c
    }
}

/// A text with its ASCII capital letters in lower case.
pub open spec fn ascii_lowered(s: Seq<char>) -> Seq<char> {
    s.map_values(|c: char| ascii_lower(c))
}

/// Puts the ASCII capital letters of a text in lower case.
pub fn to_ascii_lowercase(s: &str) -> (r: String)
    ensures
        r@ == ascii_lowered(s@),
{
    let v = chars_of(s);
    let mut out = String::new();
    let mut i: usize = 0;
    while i < v.len()
        invariant
            i <= v.len(),
            out@ == ascii_lowered(v@.take(i as int)),
        decreases v.len() - i,
    {
        let c = v[i];
        let lower = if 'A' <= c && c <= 'Z' {
            ((c as u8) + 32) as char
        } else {
            c
        };
        out.push(lower);
        i += 1;
        assert(ascii_lowered(v@.take(i as int)) == ascii_lowered(v@.take(i - 1)).push(lower));
    }
    assert(v@.take(i as int) == v@);
    out
}

/// Copies of the strings `v[from..to]`.
pub fn copy_strings_range(v: &Vec<String>, from: usize, to: usize) -> (r: Vec<String>)
    requires
        from <= to <= v.len(),
    ensures
        views(r@) == views(v@).subrange(from as int, to as int),
{
    let mut out: Vec<String> = Vec::new();
    let mut i: usize = from;
    while i < to
        invariant
            from <= i <= to <= v.len(),
            out.len() == i - from,
            forall|j: int| 0 <= j < out.len() ==> (#[trigger] out@[j])@ == v@[from + j]@,
        decreases to - i,
    {
        out.push(v[i].clone());
        i += 1;
    }
    assert(views(out@) =~= views(v@).subrange(from as int, to as int));
    out
}

/// Copies of all the strings of `v`.
pub fn copy_strings(v: &Vec<String>) -> (r: Vec<String>)
    ensures
        views(r@) == views(v@),
{
    let r = copy_strings_range(v, 0, v.len());
    assert(views(v@).subrange(0, v.len() as int) == views(v@));
    r
}

/// The lines found in `rest` when `cur` holds the characters of the line
/// that is being read.
pub open spec fn scan_lines(rest: Seq<char>, cur: Seq<char>) -> Seq<Seq<char>>
    decreases rest.len(),
{
    if rest.len() == 0 {
        word_if_any(cur)
    } else if rest[0] == '\n' {
        seq![without_carriage_return(cur)] + scan_lines(rest.skip(1), Seq::empty())
    } else {
        scan_lines(rest.skip(1), cur.push(rest[0]))
    }
}

/// A line without the carriage return that may stand before its line
/// feed.
pub open spec fn without_carriage_return(line: Seq<char>) -> Seq<char> {
    if line.len() > 0 && line.last() == '\r' {
        line.drop_last()
    } else {
        line
    }
}

/// The lines of a text: it is split at each line feed, a carriage return
/// before a line feed belongs to the line ending, and a line ending at the
/// end of the text starts no further line.
pub open spec fn lines_of(s: Seq<char>) -> Seq<Seq<char>> {
    scan_lines(s, Seq::empty())
}

/// Splits a text into its lines.
pub fn lines(s: &str) -> (out: Vec<String>)
    ensures
        views(out@) == lines_of(s@),
{
    let v = chars_of(s);
    let mut out: Vec<String> = Vec::new();
    let mut start: usize = 0;
    let mut i: usize = 0;
    assert(v@.skip(0) == v@);
    assert(v@.subrange(0, 0) == Seq::<char>::empty());
    assert(views(out@) == Seq::<Seq<char>>::empty());
    while i < v.len()
        invariant
            start <= i <= v.len(),
            lines_of(v@) == views(out@) + scan_lines(
                v@.skip(i as int),
                v@.subrange(start as int, i as int),
            ),
        decreases v.len() - i,
    {
        let ghost rest = v@.skip(i as int);
        let ghost cur = v@.subrange(start as int, i as int);
        let ghost before = views(out@);
        assert(rest[0] == v@[i as int]);
        assert(rest.skip(1) == v@.skip(i + 1));
        if v[i] == '\n' {
            let end: usize = if start < i && v[i - 1] == '\r' {
                (i - 1) as usize
            } else {
                i
            };
            let line = string_of_range(&v, start, end);
            assert(line@ == without_carriage_return(cur)) by {
                if start < i && v@[i - 1] == '\r' {
                    assert(cur.last() == '\r');
                    assert(cur.drop_last() == v@.subrange(start as int, end as int));
                }
            }
            proof {
                lemma_views_push(out@, line);
            }
            out.push(line);
            start = i + 1;
            assert(v@.subrange(start as int, i + 1) == Seq::<char>::empty());
            assert(views(out@) + scan_lines(v@.skip(i + 1), Seq::empty()) == before + (seq![
                without_carriage_return(cur),
            ] + scan_lines(rest.skip(1), Seq::empty())));
        } else {
            assert(v@.subrange(start as int, i + 1) == cur.push(rest[0]));
        }
        i += 1;
    }
    if start < i {
        let line = string_of_range(&v, start, i);
        proof {
            lemma_views_push(out@, line);
        }
        out.push(line);
    }
    out
}

/// The greatest number of characters that a line of `lines` has; 0 where
/// there is no line.
pub open spec fn widest(lines: Seq<Seq<char>>) -> nat
    decreases lines.len(),
{
    if lines.len() == 0 {
        0
    } else {
        let rest = widest(lines.drop_last());
        if lines.last().len() > rest {
            lines.last().len()
        } else {
            rest
        }
    }
}

/// The number of characters of the longest of the lines.
pub fn widest_line(lines: &Vec<String>) -> (r: usize)
    ensures
        r == widest(views(lines@)),
{
    let mut best: usize = 0;
    let mut i: usize = 0;
    assert(views(lines@).take(0) == Seq::<Seq<char>>::empty());
    while i < lines.len()
        invariant
            i <= lines.len(),
            best == widest(views(lines@).take(i as int)),
        decreases lines.len() - i,
    {
        let n = lines[i].as_str().unicode_len();
        assert(views(lines@).take(i + 1).drop_last() == views(lines@).take(i as int));
        assert(views(lines@).take(i + 1).last() == lines@[i as int]@);
        if n > best {
            best = n;
        }
        i += 1;
    }
    assert(views(lines@).take(i as int) == views(lines@));
    best
}

/// The index of the first `c` among the characters, if there is one.
pub fn find_char(v: &Vec<char>, c: char) -> (r: Option<usize>)
    ensures
        match r {
            Some(i) => v@.index_of_first(c) == Some(i as int) && i < v.len(),
            None => v@.index_of_first(c) is None,
        },
{
    proof {
        v@.index_of_first_ensures(c);
    }
    let mut i: usize = 0;
    while i < v.len()
        invariant
            i <= v.len(),
            forall|j: int| 0 <= j < i ==> v@[j] != c,
        decreases v.len() - i,
    {
        if v[i] == c {
            proof {
                v@.index_of_first_ensures(c);
                assert(v@.contains(c));
            }
            return Some(i);
        }
        i += 1;
    }
    proof {
        v@.index_of_first_ensures(c);
    }
    None
}

/// The index of the last `c` among the characters, if there is one.
pub fn rfind_char(v: &Vec<char>, c: char) -> (r: Option<usize>)
    ensures
        match r {
            Some(i) => v@.index_of_last(c) == Some(i as int) && i < v.len(),
            None => v@.index_of_last(c) is None,
        },
{
    proof {
        v@.index_of_last_ensures(c);
    }
    let mut i: usize = v.len();
    while i > 0
        invariant
            i <= v.len(),
            forall|j: int| i <= j < v.len() ==> v@[j] != c,
        decreases i,
    {
        i -= 1;
        if v[i] == c {
            proof {
                v@.index_of_last_ensures(c);
                assert(v@.contains(c));
            }
            return Some(i);
        }
    }
    proof {
        v@.index_of_last_ensures(c);
    }
    None
}

/// A text without the whitespace at its start.
pub open spec fn trimmed_start(s: Seq<char>) -> Seq<char>
    decreases s.len(),
{
    if s.len() > 0 && is_whitespace(s[0]) {
        trimmed_start(s.skip(1))
    } else {
        s
    }
}

/// A text without the whitespace at its end.
pub open spec fn trimmed_end(s: Seq<char>) -> Seq<char>
    decreases s.len(),
{
    if s.len() > 0 && is_whitespace(s.last()) {
        trimmed_end(s.drop_last())
    } else {
        s
    }
}

/// A text without the whitespace at its start and at its end.
pub open spec fn trimmed(s: Seq<char>) -> Seq<char> {
    trimmed_end(trimmed_start(s))
}

/// Takes the whitespace at the start and at the end of a text away.
pub fn trim(s: &str) -> (r: String)
    ensures
        r@ == trimmed(s@),
{
    let v = chars_of(s);
    let mut from: usize = 0;
    assert(v@.skip(0) == v@);
    while from < v.len() && v[from].is_whitespace()
        invariant
            from <= v.len(),
            trimmed_start(v@) == trimmed_start(v@.skip(from as int)),
        decreases v.len() - from,
    {
        assert(v@.skip(from as int).skip(1) == v@.skip(from + 1));
        from += 1;
    }
    let mut to: usize = v.len();
    assert(v@.subrange(from as int, to as int) == v@.skip(from as int));
    while to > from && v[to - 1].is_whitespace()
        invariant
            from <= to <= v.len(),
            trimmed_end(v@.skip(from as int)) == trimmed_end(v@.subrange(from as int, to as int)),
        decreases to,
    {
        assert(v@.subrange(from as int, to as int).drop_last() == v@.subrange(
            from as int,
            to - 1,
        ));
        to -= 1;
    }
    string_of_range(&v, from, to)
}

/// The fields found in `rest` when `cur` holds the characters of the
/// field that is being read.
pub open spec fn scan_fields(rest: Seq<char>, cur: Seq<char>, separator: char) -> Seq<Seq<char>>
    decreases rest.len(),
{
    if rest.len() == 0 {
        seq![cur]
    } else if rest[0] == separator {
        seq![cur] + scan_fields(rest.skip(1), Seq::empty(), separator)
    } else {
        scan_fields(rest.skip(1), cur.push(rest[0]), separator)
    }
}

/// The fields of a text that `separator` divides; there is always at
/// least one, and a field may be empty.
pub open spec fn fields_of(s: Seq<char>, separator: char) -> Seq<Seq<char>> {
    scan_fields(s, Seq::empty(), separator)
}

/// Splits a text at each `separator`.
pub fn split(s: &str, separator: char) -> (out: Vec<String>)
    ensures
        views(out@) == fields_of(s@, separator),
{
    let v = chars_of(s);
    let mut out: Vec<String> = Vec::new();
    let mut start: usize = 0;
    let mut i: usize = 0;
    assert(v@.skip(0) == v@);
    assert(v@.subrange(0, 0) == Seq::<char>::empty());
    assert(views(out@) == Seq::<Seq<char>>::empty());
    while i < v.len()
        invariant
            start <= i <= v.len(),
            fields_of(v@, separator) == views(out@) + scan_fields(
                v@.skip(i as int),
                v@.subrange(start as int, i as int),
                separator,
            ),
        decreases v.len() - i,
    {
        let ghost rest = v@.skip(i as int);
        let ghost cur = v@.subrange(start as int, i as int);
        let ghost before = views(out@);
        assert(rest[0] == v@[i as int]);
        assert(rest.skip(1) == v@.skip(i + 1));
        if v[i] == separator {
            let field = string_of_range(&v, start, i);
            proof {
                lemma_views_push(out@, field);
            }
            out.push(field);
            start = i + 1;
            assert(v@.subrange(start as int, i + 1) == Seq::<char>::empty());
            assert(views(out@) + scan_fields(v@.skip(i + 1), Seq::empty(), separator) == before
                + (seq![cur] + scan_fields(rest.skip(1), Seq::empty(), separator)));
        } else {
            assert(v@.subrange(start as int, i + 1) == cur.push(rest[0]));
        }
        i += 1;
    }
    let field = string_of_range(&v, start, i);
    proof {
        lemma_views_push(out@, field);
    }
    out.push(field);
    out
}

/// The character of a hexadecimal digit, in lower case.
pub open spec fn hex_char(d: nat) -> char {
    if d < 10 {
        digit_char(d)
    } else if d == 10 {
        'a'
    } else if d == 11 {
        'b'
    } else if d == 12 {
        'c'
    } else if d == 13 {
        'd'
    } else if d == 14 {
        'e'
    } else {
        'f'
    }
}

/// The hexadecimal digits of `n` in lower case, most significant first.
pub open spec fn hexadecimal(n: nat) -> Seq<char>
    decreases n,
{
    if n < 16 {
        seq![hex_char(n)]
    } else {
        hexadecimal(n / 16).push(hex_char(n % 16))
    }
}

fn hex_digit_of(d: u64) -> (c: char)
    requires
        d < 16,
    ensures
        c == hex_char(d as nat),
{
    if d < 10 {
        digit_of(d)
    } else if d == 10 {
        'a'
    } else if d == 11 {
        'b'
    } else if d == 12 {
        'c'
    } else if d == 13 {
        'd'
    } else if d == 14 {
        'e'
    } else {
        'f'
    }
}

/// Writes a number in hexadecimal, in lower case.
pub fn hexadecimal_string(n: u64) -> (r: String)
    ensures
        r@ == hexadecimal(n as nat),
    decreases n,
{
    if n < 16 {
        let mut out = String::new();
        out.push(hex_digit_of(n));
        out
    } else {
        let mut out = hexadecimal_string(n / 16);
        out.push(hex_digit_of(n % 16));
        out
    }
}

} // verus!
