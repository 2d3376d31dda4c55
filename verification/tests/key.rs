use gpg_tui::app::command::Command;
use gpg_tui::app::mode::Mode;
use gpg_tui::config::CustomKeyBinding;
use gpg_tui::error::ParseError;
use gpg_tui::term::key::{KeyCode, KeyEvent, KeyModifiers};

fn keys(words: &[&str]) -> Vec<String> {
    words.iter().map(|v| v.to_string()).collect()
}

#[test]
fn test_parse_key_bindings() {
    for (events, cmd, words) in [
        (
            vec![
                KeyEvent::new(KeyCode::Enter, KeyModifiers::none()),
                KeyEvent::new(KeyCode::Char('v'), KeyModifiers::none()),
            ],
            ":visual",
            vec!["enter", "v"],
        ),
        (
            vec![
                KeyEvent::new(KeyCode::Char('c'), KeyModifiers::control()),
                KeyEvent::new(KeyCode::Char('Q'), KeyModifiers::none()),
                KeyEvent::new(KeyCode::Esc, KeyModifiers::none()),
            ],
            "quit",
            vec!["C-c", "Q", "esc"],
        ),
        (
            vec![
                KeyEvent::new(KeyCode::Char('?'), KeyModifiers::none()),
                KeyEvent::new(KeyCode::Char('h'), KeyModifiers::none()),
                KeyEvent::new(KeyCode::F(1), KeyModifiers::none()),
            ],
            ":help",
            vec!["?", "h", "f1"],
        ),
        (
            vec![
                KeyEvent::new(KeyCode::F(5), KeyModifiers::none()),
                KeyEvent::new(KeyCode::Char('1'), KeyModifiers::alt()),
                KeyEvent::new(KeyCode::Char('R'), KeyModifiers::none()),
            ],
            ":REFRESH",
            vec!["F5", "A-1", "R"],
        ),
        (
            vec![
                KeyEvent::new(KeyCode::Char('O'), KeyModifiers::none()),
                KeyEvent::new(KeyCode::Char(' '), KeyModifiers::none()),
            ],
            ":OPTIONS",
            vec!["O", " "],
        ),
        (
            vec![
                KeyEvent::new(KeyCode::Char('p'), KeyModifiers::none()),
                KeyEvent::new(KeyCode::Char('p'), KeyModifiers::control()),
            ],
            ":paste",
            vec!["p", "c-p"],
        ),
        (
            vec![
                KeyEvent::new(KeyCode::Backspace, KeyModifiers::none()),
                KeyEvent::new(KeyCode::Backspace, KeyModifiers::none()),
                KeyEvent::new(KeyCode::Left, KeyModifiers::none()),
                KeyEvent::new(KeyCode::Delete, KeyModifiers::none()),
            ],
            ":delete",
            vec!["backspace", "Backspace", "left", "delete"],
        ),
        (
            vec![
                KeyEvent::new(KeyCode::Char('x'), KeyModifiers::none()),
                KeyEvent::new(KeyCode::Char('D'), KeyModifiers::control()),
                KeyEvent::new(KeyCode::Char('x'), KeyModifiers::control()),
                KeyEvent::new(KeyCode::Char('3'), KeyModifiers::alt()),
                KeyEvent::new(KeyCode::F(0), KeyModifiers::none()),
            ],
            ":export",
            vec!["x", "c-D", "c-x", "A-3", "f0"],
        ),
    ] {
        assert_eq!(
            Ok(CustomKeyBinding {
                keys: events,
                command: Command::from_str(cmd).expect("invalid command"),
            }),
            CustomKeyBinding::parse(&keys(&words), cmd)
        );
    }

    for (words, cmd) in [
        (vec!["x"], ":x"),
        (vec!["test"], ":help"),
        (vec![""], ":help"),
        (vec!["q"], ":qx"),
    ] {
        assert!(CustomKeyBinding::parse(&keys(&words), cmd).is_err());
    }
}

#[test]
fn test_key_chord_rules() {
    let none = KeyModifiers::none();
    assert_eq!(
        Ok(KeyEvent { code: KeyCode::Char('c'), modifiers: KeyModifiers::control() }),
        KeyEvent::parse("C-c")
    );
    assert_eq!(Ok(KeyEvent { code: KeyCode::F(5), modifiers: none }), KeyEvent::parse("f5"));
    assert_eq!(Ok(KeyEvent { code: KeyCode::Esc, modifiers: none }), KeyEvent::parse("esc"));
    assert_eq!(
        Err(ParseError::InvalidKey(String::new())),
        KeyEvent::parse("")
    );
    assert_eq!(
        Ok(KeyEvent { code: KeyCode::Char('C'), modifiers: KeyModifiers::control() }),
        KeyEvent::parse("c-C")
    );
    assert_eq!(
        Ok(KeyEvent { code: KeyCode::Char('3'), modifiers: KeyModifiers::alt() }),
        KeyEvent::parse("a-3")
    );
    assert_eq!(
        Ok(KeyEvent { code: KeyCode::Char('y'), modifiers: none }),
        KeyEvent::parse("x-y")
    );
    assert_eq!(
        Ok(KeyEvent { code: KeyCode::Char('-'), modifiers: KeyModifiers::control() }),
        KeyEvent::parse("c--")
    );
    for (word, code) in [
        ("Enter", KeyCode::Enter),
        ("tab", KeyCode::Tab),
        ("Tab", KeyCode::Tab),
        ("up", KeyCode::Up),
        ("Down", KeyCode::Down),
        ("right", KeyCode::Right),
        ("pageUp", KeyCode::PageUp),
        ("PageDown", KeyCode::PageDown),
        ("Delete", KeyCode::Delete),
        ("q", KeyCode::Char('q')),
        ("Q", KeyCode::Char('Q')),
        ("-", KeyCode::Char('-')),
        ("F9", KeyCode::F(9)),
    ] {
        assert_eq!(Ok(KeyEvent::new(code, none)), KeyEvent::parse(word), "{}", word);
    }
    for word in [
        "ö", "fx", "f10", "ab-", "-ab", "ä-b", "a-ä", "pageup", "ENTER", "escape", "space",
        "Home", "C-cc", "ff", "  ", "enter ",
    ] {
        assert_eq!(
            Err(ParseError::InvalidKey(word.to_string())),
            KeyEvent::parse(word),
            "{}",
            word
        );
    }
    assert_eq!("invalid key: fx", KeyEvent::parse("fx").unwrap_err().to_string());
    assert_ne!(
        KeyEvent::new(KeyCode::Char('q'), none),
        KeyEvent::new(KeyCode::Char('Q'), none)
    );
    assert_eq!(KeyModifiers { bits: 2 }, KeyModifiers::control());
    assert_eq!(KeyModifiers::from_bits(1), KeyModifiers::shift());
}

#[test]
fn test_key_binding_errors() {
    // the first word that is no chord is reported, before the command is read
    assert_eq!(
        Err(ParseError::InvalidKey(String::from("bad"))),
        CustomKeyBinding::parse(&keys(&["q", "bad", "worse"]), ":nothing")
    );
    assert_eq!(
        Err(ParseError::InvalidCommand(String::from(":nothing"))),
        CustomKeyBinding::parse(&keys(&["q"]), ":nothing")
    );
    let binding = CustomKeyBinding::parse(&keys(&[]), "mode visual").unwrap();
    assert!(binding.keys.is_empty());
    assert_eq!(Command::SwitchMode(Mode::Visual), binding.command);
}
