//! Keys, their modifiers, and the notation in which key chords are
//! written in the configuration.
//!
//! A chord is written as one word:
//! * a single ASCII character stands for itself: `q`, `?`, ` `;
//! * `f` or `F` and a digit is a function key: `f5`;
//! * a character, `-` and a character is a modified key: `c-` or `C-` for
//!   control, `a-` or `A-` for alt, as in `C-c` or `a-3`;
//! * anything else is the name of a key, its first letter in either case:
//!   `enter`, `Esc`, `backspace`, `PageUp`.

use crate::error::{ParseError, ParseErrorView};
use crate::text::{chars_of, copy_of, str_eq, string_of};
use vstd::prelude::*;

verus! {

/// A key of the keyboard.
#[derive(Clone, Copy, Debug, PartialEq, Eq, Hash, Structural)]
pub enum KeyCode {
    /// Backspace key.
    Backspace,
    /// Enter key.
    Enter,
    /// Left arrow key.
    Left,
    /// Right arrow key.
    Right,
    /// Up arrow key.
    Up,
    /// Down arrow key.
    Down,
    /// Page up key.
    PageUp,
    /// Page down key.
    PageDown,
    /// Tab key.
    Tab,
    /// Delete key.
    Delete,
    /// A function key, such as `F(5)`.
    F(u8),
    /// A character key, such as `Char('c')`.
    Char(char),
    /// Escape key.
    Esc,
    /// Any key that has no name here; no chord denotes it.
    Other,
}

/// The modifier keys held with a key, as a set of bits.
#[derive(Clone, Copy, Debug, PartialEq, Eq, Hash, Structural)]
pub struct KeyModifiers {
    /// One bit for each modifier: [`SHIFT`], [`CONTROL`], [`ALT`].
    pub bits: u8,
}

/// The bit of the shift key.
pub const SHIFT: u8 = 1;

/// The bit of the control key.
pub const CONTROL: u8 = 2;

/// The bit of the alt key.
pub const ALT: u8 = 4;

impl KeyModifiers {
    /// No modifier.
    pub open spec fn spec_none() -> KeyModifiers {
        KeyModifiers { bits: 0 }
    }

    /// The shift key alone.
    pub open spec fn spec_shift() -> KeyModifiers {
        KeyModifiers { bits: SHIFT }
    }

    /// The control key alone.
    pub open spec fn spec_control() -> KeyModifiers {
        KeyModifiers { bits: CONTROL }
    }

    /// The alt key alone.
    pub open spec fn spec_alt() -> KeyModifiers {
        KeyModifiers { bits: ALT }
    }

    /// No modifier.
    #[verifier::when_used_as_spec(spec_none)]
    pub fn none() -> (r: KeyModifiers)
        ensures
            r == Self::spec_none(),
    {
        KeyModifiers { bits: 0 }
    }

    /// The shift key alone.
    #[verifier::when_used_as_spec(spec_shift)]
    pub fn shift() -> (r: KeyModifiers)
        ensures
            r == Self::spec_shift(),
    {
        KeyModifiers { bits: SHIFT }
    }

    /// The control key alone.
    #[verifier::when_used_as_spec(spec_control)]
    pub fn control() -> (r: KeyModifiers)
        ensures
            r == Self::spec_control(),
    {
        KeyModifiers { bits: CONTROL }
    }

    /// The alt key alone.
    #[verifier::when_used_as_spec(spec_alt)]
    pub fn alt() -> (r: KeyModifiers)
        ensures
            r == Self::spec_alt(),
    {
        KeyModifiers { bits: ALT }
    }

    /// The modifiers with the given bits.
    pub fn from_bits(bits: u8) -> (r: KeyModifiers)
        ensures
            r == (KeyModifiers { bits }),
    {
        KeyModifiers { bits }
    }
}

/// A key chord: a key and the modifiers held with it. Two chords are the
/// same when both parts are; `Char('q')` and `Char('Q')` are different
/// keys.
#[derive(Clone, Copy, Debug, PartialEq, Eq, Hash, Structural)]
pub struct KeyEvent {
    /// The key.
    pub code: KeyCode,
    /// The modifiers held with the key.
    pub modifiers: KeyModifiers,
}

/// Whether a character is written in one byte.
pub open spec fn is_ascii(c: char) -> bool {
    (c as u32) < 0x80
}

/// The key that a name denotes.
pub open spec fn named_key(name: Seq<char>) -> Option<KeyCode> {
    if name == "Enter"@ {
        Some(KeyCode::Enter)
    } else if name == "Esc"@ {
        Some(KeyCode::Esc)
    } else if name == "Tab"@ {
        Some(KeyCode::Tab)
    } else if name == "Backspace"@ {
        Some(KeyCode::Backspace)
    } else if name == "Left"@ {
        Some(KeyCode::Left)
    } else if name == "Right"@ {
        Some(KeyCode::Right)
    } else if name == "Up"@ {
        Some(KeyCode::Up)
    } else if name == "Down"@ {
        Some(KeyCode::Down)
    } else if name == "PageUp"@ {
        Some(KeyCode::PageUp)
    } else if name == "PageDown"@ {
        Some(KeyCode::PageDown)
    } else if name == "Delete"@ {
        Some(KeyCode::Delete)
    } else {
        None
    }
}

/// A word with its first letter as a capital; only the letters `a` to `z`
/// change.
pub open spec fn capitalized(word: Seq<char>) -> Seq<char> {
    if word.len() > 0 && 'a' <= word[0] <= 'z' {
        word.update(0, ((word[0] as u8) - 32) as u8 as char)
    } else {
        word
    }
}

/// The modifiers that the first character of a modified chord denotes.
pub open spec fn modifiers_of(prefix: char) -> KeyModifiers {
    if prefix == 'c' || prefix == 'C' {
        KeyModifiers::spec_control()
    } else if prefix == 'a' || prefix == 'A' {
        KeyModifiers::spec_alt()
    } else {
        KeyModifiers::spec_none()
    }
}

/// The chord that a word denotes, by the first rule that applies.
pub open spec fn key_event_of(word: Seq<char>) -> Option<KeyEvent> {
    if word.len() == 1 && is_ascii(word[0]) {
        Some(KeyEvent { code: KeyCode::Char(word[0]), modifiers: KeyModifiers::spec_none() })
    } else if word.len() == 2 && (word[0] == 'f' || word[0] == 'F') && '0' <= word[1] <= '9' {
        Some(
            KeyEvent {
                code: KeyCode::F((word[1] as u8 - '0' as u8) as u8),
                modifiers: KeyModifiers::spec_none(),
            },
        )
    } else if word.len() == 3 && word[1] == '-' && is_ascii(word[0]) && is_ascii(word[2]) {
        Some(KeyEvent { code: KeyCode::Char(word[2]), modifiers: modifiers_of(word[0]) })
    } else {
        match named_key(capitalized(word)) {
            Some(code) => Some(KeyEvent { code, modifiers: KeyModifiers::spec_none() }),
            None => None,
        }
    }
}

fn find_named_key(name: &str) -> (r: Option<KeyCode>)
    ensures
        r == named_key(name@),
{
    if str_eq(name, "Enter") {
        Some(KeyCode::Enter)
    } else if str_eq(name, "Esc") {
        Some(KeyCode::Esc)
    } else if str_eq(name, "Tab") {
        Some(KeyCode::Tab)
    } else if str_eq(name, "Backspace") {
        Some(KeyCode::Backspace)
    } else if str_eq(name, "Left") {
        Some(KeyCode::Left)
    } else if str_eq(name, "Right") {
        Some(KeyCode::Right)
    } else if str_eq(name, "Up") {
        Some(KeyCode::Up)
    } else if str_eq(name, "Down") {
        Some(KeyCode::Down)
    } else if str_eq(name, "PageUp") {
        Some(KeyCode::PageUp)
    } else if str_eq(name, "PageDown") {
        Some(KeyCode::PageDown)
    } else if str_eq(name, "Delete") {
        Some(KeyCode::Delete)
    } else {
        None
    }
}

impl KeyEvent {
    /// A chord of a key and modifiers.
    pub fn new(code: KeyCode, modifiers: KeyModifiers) -> (r: KeyEvent)
        ensures
            r == (KeyEvent { code, modifiers }),
    {
        KeyEvent { code, modifiers }
    }

    /// Reads a chord from its notation. A word that no rule accepts, the
    /// empty word among them, is handed back in the error.
    pub fn parse(word: &str) -> (r: Result<KeyEvent, ParseError>)
        ensures
            match key_event_of(word@) {
                Some(event) => r == Ok::<KeyEvent, ParseError>(event),
                None => r matches Err(error) && error@ == ParseErrorView::InvalidKey(word@),
            },
    {
        let chars = chars_of(word);
        let n: usize = chars.len();
        if n == 1 && (chars[0] as u32) < 0x80 {
            Ok(KeyEvent::new(KeyCode::Char(chars[0]), KeyModifiers::none()))
        } else if n == 2 && (chars[0] == 'f' || chars[0] == 'F') && '0' <= chars[1] && chars[1]
            <= '9' {
            Ok(KeyEvent::new(KeyCode::F((chars[1] as u8) - ('0' as u8)), KeyModifiers::none()))
        } else if n == 3 && chars[1] == '-' && (chars[0] as u32) < 0x80 && (chars[2] as u32)
            < 0x80 {
            let prefix = chars[0];
            let modifiers = if prefix == 'c' || prefix == 'C' {
                KeyModifiers::control()
            } else if prefix == 'a' || prefix == 'A' {
                KeyModifiers::alt()
            } else {
                KeyModifiers::none()
            };
            Ok(KeyEvent::new(KeyCode::Char(chars[2]), modifiers))
        } else {
            let mut name = chars;
            if n > 0 && 'a' <= name[0] && name[0] <= 'z' {
                let upper = ((name[0] as u8) - 32) as char;
                name.set(0, upper);
            }
            let name = string_of(&name);
            match find_named_key(name.as_str()) {
                Some(code) => Ok(KeyEvent::new(code, KeyModifiers::none())),
                None => Err(ParseError::InvalidKey(copy_of(word))),
            }
        }
    }
}

/// Every word denotes at most one chord, by the first rule that applies:
/// a single ASCII character is the key of that character, with its case
/// and without modifiers; `f` or `F` and a digit is the function key of
/// the digit; a modified key keeps the case of its character, and `c` and
/// `C` both mean control, `a` and `A` both mean alt. The empty word
/// denotes nothing, and no word denotes a key with any other modifier.
pub proof fn lemma_key_chords(word: Seq<char>)
    ensures
        word.len() == 0 ==> key_event_of(word) is None,
        word.len() == 1 && is_ascii(word[0]) ==> key_event_of(word) == Some(
            KeyEvent { code: KeyCode::Char(word[0]), modifiers: KeyModifiers::spec_none() },
        ),
        word.len() == 2 && (word[0] == 'f' || word[0] == 'F') && '0' <= word[1] <= '9'
            ==> key_event_of(word) == Some(
            KeyEvent {
                code: KeyCode::F((word[1] as u8 - '0' as u8) as u8),
                modifiers: KeyModifiers::spec_none(),
            },
        ),
        word.len() == 3 && word[1] == '-' && is_ascii(word[2]) && (word[0] == 'c' || word[0]
            == 'C') ==> key_event_of(word) == Some(
            KeyEvent { code: KeyCode::Char(word[2]), modifiers: KeyModifiers::spec_control() },
        ),
        word.len() == 3 && word[1] == '-' && is_ascii(word[2]) && (word[0] == 'a' || word[0]
            == 'A') ==> key_event_of(word) == Some(
            KeyEvent { code: KeyCode::Char(word[2]), modifiers: KeyModifiers::spec_alt() },
        ),
        key_event_of(word) matches Some(event) ==> event.modifiers == KeyModifiers::spec_none()
            || event.modifiers == KeyModifiers::spec_control() || event.modifiers
            == KeyModifiers::spec_alt(),
        key_event_of(word) matches Some(event) ==> event.code != KeyCode::Other,
{
    reveal_strlit("Enter");
    reveal_strlit("Esc");
    reveal_strlit("Tab");
    reveal_strlit("Backspace");
    reveal_strlit("Left");
    reveal_strlit("Right");
    reveal_strlit("Up");
    reveal_strlit("Down");
    reveal_strlit("PageUp");
    reveal_strlit("PageDown");
    reveal_strlit("Delete");
}

} // verus!
