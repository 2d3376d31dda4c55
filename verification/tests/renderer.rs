use gpg_tui::app::launcher::App;
use gpg_tui::app::output::OutputType;
use gpg_tui::app::renderer::{
    contains_text, fit_table_size, get_keys_row_length, get_keys_table_room,
    get_keys_table_rows, get_prompt_cursor, get_prompt_line, Alignment,
};
use gpg_tui::app::state::State;
use gpg_tui::app::style::Style;
use gpg_tui::app::tab::Tab;
use gpg_tui::gpg::config::GpgConfig;
use gpg_tui::gpg::key::{GpgKey, Key, KeyDetail, KeyType, Subkey, UserId, Validity};
use gpg_tui::widget::rect::Rect;
use gpg_tui::widget::style::TuiColor;
use gpg_tui::widget::table::TableSize;
use gpg_tui::widget::text::{Span, TuiStyle};

fn key(id: &str, name: &str) -> GpgKey {
    GpgKey::new(
        Key {
            id: Some(id.to_string()),
            fingerprint: Some(format!("{}{}", id, id)),
            subkeys: vec![Subkey {
                id: Some(id.to_string()),
                fingerprint: Some(format!("{}{}", id, id)),
                algorithm_name: Some(String::from("rsa3072")),
                can_sign: true,
                can_certify: true,
                can_encrypt: false,
                can_authenticate: false,
                creation_time: Some(0),
                expiration_time: None,
                is_expired: false,
                is_revoked: false,
                is_disabled: false,
                is_invalid: false,
                is_qualified: false,
            }],
            user_ids: vec![UserId {
                id: Some(format!("{} <{}@example.org>", name, name)),
                email: Some(format!("{}@example.org", name)),
                validity: Validity::Full,
                signatures: Vec::new(),
            }],
        },
        KeyDetail::Standard,
    )
}

fn app() -> App {
    App::new(
        vec![key("A1", "Alice"), key("B2", "Bob"), key("C3", "Carol")],
        Vec::new(),
        State::default(),
        GpgConfig {
            armor: false,
            default_key: None,
            home_dir: String::from("/h"),
            output_dir: String::from("/h/out"),
        },
        true,
        0,
    )
}

fn raw(text: &str) -> Span {
    Span { content: text.to_string(), style: TuiStyle::default() }
}

fn fg(color: TuiColor) -> TuiStyle {
    TuiStyle { fg: Some(color), ..TuiStyle::default() }
}

#[test]
fn test_prompt_line() {
    let mut app = app();
    let line = get_prompt_line(&app);
    assert_eq!(
        vec![
            Span { content: String::from("< "), style: fg(TuiColor::DarkGray) },
            raw("list pub (1/3)"),
            Span { content: String::from(" >"), style: fg(TuiColor::DarkGray) },
        ],
        line.spans
    );
    assert_eq!(Alignment::Right, line.alignment);
    assert_eq!(TuiStyle::default(), line.style);
    app.state.style = Style::Colored;
    app.keys_table.state.tui.select(None);
    app.tab = Tab::Keys(KeyType::Secret);
    let line = get_prompt_line(&app);
    assert_eq!(fg(TuiColor::LightBlue), line.spans[0].style);
    assert_eq!("list sec (1/3)", line.spans[1].content);
    app.keys_table.items.clear();
    assert_eq!("list sec", get_prompt_line(&app).spans[1].content);
    app.tab = Tab::Help;
    assert_eq!("help", get_prompt_line(&app).spans[1].content);
    let bold = |color: Option<TuiColor>| TuiStyle {
        fg: color,
        bg: None,
        add_modifier: 1,
        sub_modifier: 0,
    };
    for (output_type, text, color) in [
        (OutputType::Success, "(i) done", Some(TuiColor::LightGreen)),
        (OutputType::Warning, "(w) done", Some(TuiColor::LightYellow)),
        (OutputType::Failure, "(e) done", Some(TuiColor::LightRed)),
        (OutputType::Action, "done", Some(TuiColor::LightBlue)),
    ] {
        app.state.style = Style::Colored;
        app.set_output(output_type, String::from("done"), 1);
        let line = get_prompt_line(&app);
        assert_eq!(vec![raw(text)], line.spans);
        assert_eq!(Alignment::Left, line.alignment);
        assert_eq!(bold(color), line.style);
        app.state.style = Style::Plain;
        assert_eq!(bold(None), get_prompt_line(&app).style);
    }
    assert_eq!(None, get_prompt_cursor(&app, Rect::new(1, 2, 80, 1)));
    app.prompt.clear();
    app.prompt.enable_command_input();
    app.prompt.text.push_str("日本");
    assert_eq!(TuiStyle::default(), get_prompt_line(&app).style);
    assert_eq!(Some((6, 3)), get_prompt_cursor(&app, Rect::new(1, 2, 80, 1)));
    assert_eq!(
        Some((65535, 65535)),
        get_prompt_cursor(&app, Rect::new(65533, 65535, 80, 1))
    );
}

#[test]
fn test_table_geometry() {
    assert_eq!(55, get_keys_row_length(TableSize::Normal));
    assert_eq!(31, get_keys_row_length(TableSize::Compact));
    assert_eq!(31, get_keys_row_length(TableSize::Minimized));
    assert_eq!((8, 8), get_keys_table_room(TableSize::Normal, Rect::new(0, 0, 70, 10)));
    assert_eq!((32, 8), get_keys_table_room(TableSize::Compact, Rect::new(0, 0, 70, 10)));
    assert_eq!((61, 1), get_keys_table_room(TableSize::Normal, Rect::new(0, 0, 61, 1)));
    assert_eq!((0, 0), get_keys_table_room(TableSize::Normal, Rect::new(0, 0, 62, 2)));
    let mut app = app();
    fit_table_size(&mut app, 10);
    assert_eq!(TableSize::Minimized, app.keys_table.state.size);
    fit_table_size(&mut app, 90);
    assert_eq!(TableSize::Normal, app.keys_table.state.size);
    app.keys_table.state.size = TableSize::Compact;
    fit_table_size(&mut app, 200);
    assert_eq!(TableSize::Compact, app.keys_table.state.size);
    app.keys_table.state.minimize_threshold = 0;
    fit_table_size(&mut app, 1);
    assert_eq!(TableSize::Compact, app.keys_table.state.size);
}

#[test]
fn test_contains_text() {
    assert!(contains_text("", ""));
    assert!(contains_text("abc", ""));
    assert!(contains_text("abc", "abc"));
    assert!(contains_text("xxabyabc", "abc"));
    assert!(contains_text("aäb", "äb"));
    assert!(!contains_text("ab", "abc"));
    assert!(!contains_text("abab", "aa"));
    assert!(!contains_text("", "a"));
}

#[test]
fn test_keys_table_rows() {
    let mut app = app();
    app.keys_table_margin = 2;
    let rows = get_keys_table_rows(&mut app, 12, 1);
    assert_eq!(3, rows.len());
    assert_eq!(3, app.keys_table.items.len());
    // two lines of subkeys in a window of one row: the marker
    assert_eq!(vec![raw("...")], rows[0].keys.lines[0].0);
    assert_eq!(1, rows[0].keys.lines.len());
    assert_eq!(vec![raw("[f] Alice <A..")], rows[0].users.lines[0].0);
    assert_eq!(1, rows[0].height);
    assert_eq!(2, rows[0].bottom_margin);
    let rows = get_keys_table_rows(&mut app, 100, 5);
    assert_eq!(
        vec![raw("[sc--] rsa3072/B2B2")],
        rows[1].keys.lines[0].0
    );
    assert_eq!(vec![raw("       └─(1970-01-01)")], rows[1].keys.lines[1].0);
    assert_eq!(2, rows[1].height);
    app.state.style = Style::Colored;
    app.keys_table.state.tui.select(Some(1));
    let rows = get_keys_table_rows(&mut app, 100, 5);
    assert_eq!(TuiStyle::default(), rows[0].keys.lines[0].0[0].style);
    assert_eq!(fg(TuiColor::Reset), rows[1].keys.lines[0].0[0].style);
    assert_eq!("s", rows[1].keys.lines[0].0[1].content);
    assert_eq!(fg(TuiColor::LightGreen), rows[1].keys.lines[0].0[1].style);
    assert_eq!("Carol@example.org", rows[2].users.lines[0].0[4].content);
    // a search lets only the keys through that hold the text, in either case
    app.prompt.text = String::from("/BOB");
    let rows = get_keys_table_rows(&mut app, 100, 5);
    assert_eq!(1, rows.len());
    assert_eq!(1, app.keys_table.items.len());
    assert_eq!("0xB2", app.keys_table.items[0].get_id());
    assert_eq!(3, app.keys_table.default_items.len());
    // rows are highlighted by the place that their key had before the search
    assert_eq!(fg(TuiColor::Reset), rows[0].keys.lines[0].0[0].style);
    app.prompt.text = String::from("/zzz");
    assert!(get_keys_table_rows(&mut app, 100, 5).is_empty());
    assert!(app.keys_table.items.is_empty());
    app.keys_table.items = app.keys_table.default_items.clone();
    app.prompt.text = String::from("/c3c3");
    assert_eq!(1, get_keys_table_rows(&mut app, 100, 5).len());
    app.prompt.text = String::from(":zzz");
    assert_eq!(1, get_keys_table_rows(&mut app, 100, 5).len());
}
