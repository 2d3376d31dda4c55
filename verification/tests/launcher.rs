use gpg_tui::app::command::Command;
use gpg_tui::app::handler::{
    admit_command, handle_command_execution, handle_key_event, handle_prompt_key,
    import_picked_files, plan_execution, resolve, resolve_builtin, InputContext, MouseCapture,
    TableAction,
};
use gpg_tui::app::launcher::{get_export_file_name, join_path, parse_bool, App};
use gpg_tui::app::mode::Mode;
use gpg_tui::app::output::OutputType;
use gpg_tui::app::prompt::{Prompt, COMMAND_PREFIX, MESSAGE_DURATION, SEARCH_PREFIX};
use gpg_tui::app::request::{ClipboardUse, Request, Response};
use gpg_tui::app::selection::Selection;
use gpg_tui::app::state::State;
use gpg_tui::app::style::Style;
use gpg_tui::app::tab::Tab;
use gpg_tui::config::CustomKeyBinding;
use gpg_tui::gpg::config::GpgConfig;
use gpg_tui::gpg::key::{GpgKey, Key, KeyDetail, KeyType, Subkey, UserId, Validity};
use gpg_tui::term::key::{KeyCode as Key_, KeyEvent, KeyModifiers};
use gpg_tui::widget::row::{ScrollAmount, ScrollDirection};
use gpg_tui::widget::style::TuiColor;
use gpg_tui::widget::table::TableSize;

fn key(id: &str) -> GpgKey {
    GpgKey::new(
        Key {
            id: Some(id.to_string()),
            fingerprint: Some(format!("{}{}", id, id)),
            subkeys: vec![Subkey {
                id: Some(id.to_string()),
                fingerprint: Some(format!("{}{}", id, id)),
                algorithm_name: Some(String::from("rsa3072")),
                can_sign: true,
                can_certify: true,
                can_encrypt: false,
                can_authenticate: false,
                creation_time: Some(0),
                expiration_time: None,
                is_expired: false,
                is_revoked: false,
                is_disabled: false,
                is_invalid: false,
                is_qualified: false,
            }],
            user_ids: vec![UserId {
                id: Some(format!("user {}", id)),
                email: Some(format!("{}@example.org", id)),
                validity: Validity::Full,
                signatures: Vec::new(),
            }],
        },
        KeyDetail::Minimum,
    )
}

fn config() -> GpgConfig {
    GpgConfig {
        armor: false,
        default_key: None,
        home_dir: String::from("/home/u/.gnupg"),
        output_dir: String::from("/home/u/.gnupg/out"),
    }
}

fn app() -> App {
    App::new(
        vec![key("A1"), key("B2"), key("C3")],
        vec![key("S1")],
        State::default(),
        config(),
        true,
        0,
    )
}

fn run(app: &mut App, command: Command) -> Request {
    app.run_command(command, 10)
}

fn set(option: &str, value: &str) -> Command {
    Command::SetOption(option.to_string(), value.to_string())
}

fn press(app: &mut App, code: Key_, modifiers: KeyModifiers) -> Command {
    handle_key_event(KeyEvent::new(code, modifiers), &Vec::new(), app, 20)
}

#[test]
fn test_app_launcher() {
    let mut app = app();
    assert_eq!(Request::Reload(None), run(&mut app, Command::Refresh));
    assert_eq!(
        Request::Done,
        app.respond(
            Request::Reload(None),
            Response::Keys(vec![key("A1"), key("B2")], vec![key("S1")]),
            11
        )
    );

    run(&mut app, Command::ShowHelp);
    assert_eq!(Tab::Help, app.tab);
    run(&mut app, Command::ShowOptions);
    assert!(app.state.show_options);

    run(&mut app, Command::ListKeys(KeyType::Public));
    run(&mut app, Command::ToggleDetail(false));
    let mut detail = app.keys_table_detail.clone();
    detail.increase();
    run(&mut app, Command::ToggleDetail(true));
    assert_eq!(detail, app.keys_table_detail);

    let prompt_text = format!("{}test", COMMAND_PREFIX);
    run(&mut app, set("prompt", &prompt_text));
    assert_eq!(prompt_text, app.prompt.text);

    let home_dir = String::from("/home/user");
    let request = run(&mut app, set("output", &home_dir));
    assert_eq!(Request::CheckPath(home_dir.clone()), request);
    app.respond(request, Response::Exists(true), 12);
    run(&mut app, Command::Get(String::from("output")));
    assert!(app.prompt.text.contains(&home_dir));

    let test_values = vec![
        ("output", "/tmp"),
        ("mode", "normal"),
        ("armor", "true"),
        ("signer", "0x0"),
        ("minimize", "10"),
        ("margin", "2"),
        ("colored", "true"),
        ("color", "#123123"),
        ("detail", "full"),
    ];
    for (option, value) in test_values {
        let request = run(&mut app, set(option, value));
        if option == "output" {
            app.respond(request, Response::Exists(true), 13);
        }
        run(&mut app, Command::Get(option.to_string()));
        assert!(
            (app.prompt.text == format!("{}: {}", option, value))
                || app.prompt.text.contains(value),
            "{}",
            app.prompt.text
        );
    }

    app.mode = Mode::Normal;
    run(&mut app, Command::SwitchMode(Mode::Visual));
    assert_eq!(Mode::Visual, app.mode);

    run(&mut app, Command::EnableInput);
    assert!(app.prompt.is_command_input_enabled());
    assert_eq!(COMMAND_PREFIX.to_string(), app.prompt.text);

    run(&mut app, Command::Search(Some(String::from("x"))));
    assert!(app.prompt.is_search_enabled());
    assert_eq!(format!("{}x", SEARCH_PREFIX), app.prompt.text);

    app.tab = Tab::Keys(KeyType::Public);
    run(&mut app, Command::NextTab);
    assert_eq!(Tab::Keys(KeyType::Secret), app.tab);
    run(&mut app, Command::NextTab);
    assert_eq!(Tab::Keys(KeyType::Public), app.tab);

    app.tick(14);
    app.run_command(
        Command::ShowOutput(OutputType::Success, String::from("test")),
        100,
    );
    assert_eq!("test", app.prompt.text);
    app.tick(100 + MESSAGE_DURATION);
    assert_eq!("test", app.prompt.text);
    app.tick(100 + MESSAGE_DURATION + 10);
    assert_eq!("", app.prompt.text);

    run(&mut app, Command::Quit);
    assert!(!app.state.running);

    assert_eq!(Request::Done, run(&mut app, Command::NoOp));
}

#[test]
fn test_app_start() {
    let app = app();
    assert_eq!(Mode::Normal, app.mode);
    assert_eq!(Tab::Keys(KeyType::Public), app.tab);
    assert_eq!("", app.prompt.text);
    assert_eq!(3, app.keys_table.items.len());
    assert_eq!(Some(0), app.keys_table.state.tui.selected());
    assert_eq!(26, app.key_bindings.items.len());
    assert_eq!(None, app.key_bindings.state.selected());
    assert_eq!(1, app.keys_table_margin);
    assert!(app.options.items.is_empty());
    let mut state = State::default();
    state.select = Some(Selection::KeyId);
    let mut app = App::new(Vec::new(), Vec::new(), state, config(), false, 77);
    assert_eq!("-- select --", app.prompt.text);
    assert_eq!(OutputType::Action, app.prompt.output_type);
    assert_eq!(Some(77), app.prompt.clock);
    // without a key there is nothing to select
    assert_eq!(Request::Done, run(&mut app, Command::Copy(Selection::KeyId)));
    assert_eq!("invalid selection", app.prompt.text);
    assert!(app.state.running);
}

#[test]
fn test_options_menu() {
    let mut app = app();
    run(&mut app, Command::ShowOptions);
    assert!(app.state.show_options);
    assert_eq!(29, app.options.items.len());
    assert_eq!(Some(0), app.options.state.selected());
    assert_eq!(Command::NoOp, app.options.items[0]);
    assert_eq!(
        Command::ExportKeys(KeyType::Public, vec![String::from("0xA1")], false),
        app.options.items[7]
    );
    assert_eq!(
        Command::Confirm(Box::new(Command::DeleteKey(KeyType::Public, String::from("0xA1")))),
        app.options.items[9]
    );
    assert_eq!(set("armor", "true"), app.options.items[14]);
    assert_eq!(set("margin", "0"), app.options.items[24]);
    assert_eq!(set("colored", "true"), app.options.items[26]);
    assert_eq!(Command::Quit, app.options.items[28]);
    // the menu is scrolled while it is open, and stays open
    run(&mut app, Command::Scroll(ScrollDirection::Up(1), false));
    assert_eq!(Some(28), app.options.state.selected());
    assert!(app.state.show_options);
    run(&mut app, Command::Scroll(ScrollDirection::Down(1), false));
    assert_eq!(Some(0), app.options.state.selected());
    run(&mut app, Command::Scroll(ScrollDirection::Bottom, false));
    assert_eq!(Some(28), app.options.state.selected());
    // the same number of entries keeps the selection
    run(&mut app, Command::ShowOptions);
    assert_eq!(Some(28), app.options.state.selected());
    // any other command closes the menu
    run(&mut app, Command::ListKeys(KeyType::Secret));
    assert!(!app.state.show_options);
    app.mode = Mode::Visual;
    run(&mut app, Command::ShowOptions);
    assert_eq!(31, app.options.items.len());
    assert_eq!(Some(0), app.options.state.selected());
    assert_eq!(
        Command::ExportKeys(KeyType::Secret, vec![String::from("0xS1")], true),
        app.options.items[8]
    );
    assert_eq!(set("signer", "0xS1"), app.options.items[13]);
    assert_eq!(Command::SwitchMode(Mode::Normal), app.options.items[29]);
    run(&mut app, Command::ShowHelp);
    run(&mut app, Command::ShowOptions);
    assert_eq!(
        vec![
            Command::NoOp,
            Command::ListKeys(KeyType::Public),
            Command::ListKeys(KeyType::Secret),
            Command::SwitchMode(Mode::Normal),
            Command::Refresh,
            Command::Quit,
        ],
        app.options.items
    );
    // without a selected key there is no menu
    let mut app = App::new(Vec::new(), Vec::new(), State::default(), config(), true, 0);
    run(&mut app, Command::ShowOptions);
    assert!(!app.state.show_options);
    assert_eq!("invalid selection", app.prompt.text);
    assert_eq!(OutputType::Failure, app.prompt.output_type);
}

#[test]
fn test_tables_are_remembered() {
    let mut app = app();
    run(&mut app, Command::Scroll(ScrollDirection::Down(1), false));
    run(&mut app, Command::Scroll(ScrollDirection::Right(4), true));
    run(&mut app, Command::ToggleDetail(false));
    assert_eq!(Some(1), app.keys_table.state.tui.selected());
    assert_eq!(KeyDetail::Standard, app.keys_table.items[1].detail);
    assert_eq!(KeyDetail::Standard, app.keys_table.default_items[1].detail);
    run(&mut app, Command::NextTab);
    assert_eq!(Tab::Keys(KeyType::Secret), app.tab);
    assert_eq!(1, app.keys_table.items.len());
    assert_eq!(Some(0), app.keys_table.state.tui.selected());
    assert_eq!(ScrollAmount { vertical: 0, horizontal: 0 }, app.keys_table.state.scroll);
    run(&mut app, Command::PreviousTab);
    assert_eq!(Tab::Keys(KeyType::Public), app.tab);
    assert_eq!(Some(1), app.keys_table.state.tui.selected());
    assert_eq!(ScrollAmount { vertical: 0, horizontal: 4 }, app.keys_table.state.scroll);
    assert_eq!(KeyDetail::Standard, app.keys_table.items[1].detail);
    // the table wraps at both ends, and a move resets the row scroll
    run(&mut app, Command::Scroll(ScrollDirection::Bottom, false));
    assert_eq!(Some(2), app.keys_table.state.tui.selected());
    assert_eq!(4, app.keys_table.state.scroll.horizontal);
    run(&mut app, Command::Scroll(ScrollDirection::Down(1), false));
    assert_eq!(Some(0), app.keys_table.state.tui.selected());
    assert_eq!(0, app.keys_table.state.scroll.horizontal);
    run(&mut app, Command::Scroll(ScrollDirection::Up(1), false));
    assert_eq!(Some(2), app.keys_table.state.tui.selected());
    run(&mut app, Command::Scroll(ScrollDirection::Top, false));
    assert_eq!(Some(0), app.keys_table.state.tui.selected());
    run(&mut app, Command::Scroll(ScrollDirection::Left(1), false));
    assert_eq!(Some(0), app.keys_table.state.tui.selected());
    // the help tab scrolls its own list
    run(&mut app, Command::ShowHelp);
    assert_eq!(Some(0), app.key_bindings.state.selected());
    run(&mut app, Command::Scroll(ScrollDirection::Up(1), false));
    assert_eq!(Some(25), app.key_bindings.state.selected());
    run(&mut app, Command::Scroll(ScrollDirection::Down(1), false));
    assert_eq!(Some(0), app.key_bindings.state.selected());
    run(&mut app, Command::Scroll(ScrollDirection::Bottom, false));
    assert_eq!(Some(25), app.key_bindings.state.selected());
    run(&mut app, Command::ToggleTableSize);
    assert_eq!(TableSize::Compact, app.keys_table.state.size);
    assert_eq!(0, app.keys_table.state.minimize_threshold);
    assert_eq!("table size: compact", app.prompt.text);
    run(&mut app, Command::ChangeStyle(Style::Colored));
    assert_eq!(Style::Colored, app.state.style);
    assert_eq!("style: colored", app.prompt.text);
}

#[test]
fn test_options_are_set_and_read() {
    let mut app = app();
    for (option, value, text, output) in [
        ("mode", "VISUAL", "mode: visual", OutputType::Success),
        ("mode", "x", "invalid mode", OutputType::Failure),
        ("armor", "TRUE", "usage: set armor <true/false>", OutputType::Failure),
        ("armor", "true", "armor: true", OutputType::Success),
        ("signer", "0xAB", "signer: 0xAB", OutputType::Success),
        ("minimize", "x", "minimize threshold: 0", OutputType::Success),
        ("minimize", "65535", "minimize threshold: 65535", OutputType::Success),
        ("margin", "65536", "table margin: 0", OutputType::Success),
        ("margin", "+3", "table margin: 3", OutputType::Success),
        ("detail", "2", "detail: standard", OutputType::Success),
        ("detail", "most", "usage: set detail <level>", OutputType::Failure),
        ("colored", "yes", "usage: set colored <true/false>", OutputType::Failure),
        ("colored", "false", "colored: false", OutputType::Success),
        ("color", "LightBlue", "color: lightblue", OutputType::Success),
        ("color", "0a0B0c", "color: #0a0b0c", OutputType::Success),
        ("color", "nothing", "color: gray", OutputType::Success),
        ("volume", "11", "unknown option: volume", OutputType::Failure),
        ("", "", "usage: set <option> <value>", OutputType::Failure),
        ("prompt", "text", "unknown option: prompt", OutputType::Failure),
    ] {
        assert_eq!(Request::Done, run(&mut app, set(option, value)));
        assert_eq!(text, app.prompt.text, "{} {}", option, value);
        assert_eq!(output, app.prompt.output_type);
        assert_eq!(Some(10), app.prompt.clock);
    }
    assert_eq!(Mode::Visual, app.mode);
    assert!(app.gpgme.armor);
    assert_eq!(Some(String::from("0xAB")), app.gpgme.default_key);
    assert_eq!(TuiColor::Gray, app.state.color);
    assert_eq!(KeyDetail::Standard, app.keys_table.items[0].detail);
    run(&mut app, set("prompt", "/find"));
    assert_eq!("/find", app.prompt.text);
    assert_eq!(None, app.prompt.clock);
    for (option, text, output) in [
        ("output", "output directory: \"/home/u/.gnupg/out\"", OutputType::Success),
        ("mode", "mode: visual", OutputType::Success),
        ("armor", "armor: true", OutputType::Success),
        ("signer", "signer: 0xAB", OutputType::Success),
        ("minimize", "minimize threshold: 65535", OutputType::Success),
        ("detail", "detail: standard", OutputType::Success),
        ("margin", "table margin: 3", OutputType::Success),
        ("colored", "colored: false", OutputType::Success),
        ("color", "color: gray", OutputType::Success),
        ("volume", "unknown option: volume", OutputType::Failure),
        ("", "usage: get <option>", OutputType::Failure),
    ] {
        run(&mut app, Command::Get(option.to_string()));
        assert_eq!(text, app.prompt.text);
        assert_eq!(output, app.prompt.output_type);
    }
    app.gpgme.default_key = None;
    assert_eq!(
        (OutputType::Success, String::from("signer key is not specified")),
        app.get_option("signer")
    );
    app.keys_table.state.tui.select(Some(9));
    assert_eq!(
        (OutputType::Failure, String::from("invalid selection")),
        app.get_option("detail")
    );
    app.keys_table.state.tui.select(None);
    assert_eq!(
        (OutputType::Failure, String::from("unknown selection")),
        app.get_option("detail")
    );
    let request = run(&mut app, set("output", "/nowhere"));
    assert_eq!(Request::Done, app.respond(request, Response::Exists(false), 5));
    assert_eq!("path does not exist", app.prompt.text);
    assert_eq!("/home/u/.gnupg/out", app.gpgme.output_dir);
    assert_eq!(Some(true), parse_bool("true"));
    assert_eq!(None, parse_bool("True"));
}

#[test]
fn test_requests_to_the_key_store() {
    let mut app = app();
    assert_eq!(
        Request::Done,
        run(&mut app, Command::ImportKeys(Vec::new(), false))
    );
    assert_eq!("no files given", app.prompt.text);
    let request = run(&mut app, Command::ImportKeys(vec![String::from("a.asc")], false));
    assert_eq!(Request::ImportKeys(vec![String::from("a.asc")], true), request);
    let request = app.respond(request, Response::Count(2), 30);
    assert_eq!(Request::Reload(Some(String::from("2 key(s) imported"))), request);
    app.mode = Mode::Copy;
    app.keys_table_margin = 5;
    let request = app.respond(request, Response::Keys(vec![key("N1")], Vec::new()), 31);
    assert_eq!(Request::Done, request);
    assert_eq!("2 key(s) imported", app.prompt.text);
    assert_eq!(OutputType::Success, app.prompt.output_type);
    assert_eq!(Some(31), app.prompt.clock);
    assert_eq!(1, app.keys_table.items.len());
    assert_eq!("0xN1", app.keys_table.items[0].get_id());
    assert_eq!(Mode::Normal, app.mode);
    assert_eq!(1, app.keys_table_margin);
    assert!(app.secret_keys.is_empty());

    let request = run(&mut app, Command::ImportClipboard);
    assert_eq!(Request::ReadClipboard(ClipboardUse::Import), request);
    let request = app.respond(request, Response::Text(String::from("KEY")), 32);
    assert_eq!(Request::ImportKeys(vec![String::from("KEY")], false), request);
    let request = app.respond(request, Response::Failed(String::from("bad data")), 33);
    assert_eq!(Request::Done, request);
    assert_eq!("import error: bad data", app.prompt.text);
    assert_eq!(OutputType::Failure, app.prompt.output_type);

    let request = run(
        &mut app,
        Command::ExportKeys(KeyType::Public, vec![String::from("x")], false),
    );
    assert_eq!(Request::ExportKeys(KeyType::Public, vec![String::from("x")]), request);
    assert_eq!(
        Request::Done,
        app.respond(request, Response::Text(String::from("/out/pub_x.pgp")), 34)
    );
    assert_eq!("export: /out/pub_x.pgp", app.prompt.text);
    let request = run(&mut app, Command::DeleteKey(KeyType::Secret, String::from("0x1")));
    assert_eq!(Request::DeleteKey(KeyType::Secret, String::from("0x1")), request);
    assert_eq!(Request::Reload(None), app.respond(request, Response::Finished, 35));
    let request = run(&mut app, Command::SendKey(String::from("0x1")));
    assert_eq!(Request::SendKey(String::from("0x1")), request);
    app.respond(request, Response::Text(String::from("1")), 36);
    assert_eq!("key sent to the keyserver: 0x1", app.prompt.text);
    let request = run(&mut app, Command::SendKey(String::from("0x1")));
    app.respond(request, Response::Failed(String::from("no network")), 37);
    assert_eq!("send error: no network", app.prompt.text);
    // an answer that does not fit the request changes nothing
    assert_eq!(
        Request::Done,
        app.respond(Request::SendKey(String::new()), Response::Exists(true), 38)
    );
    assert_eq!("send error: no network", app.prompt.text);
    assert_eq!(
        Request::Done,
        app.respond(Request::Reload(None), Response::Failed(String::from("gone")), 39)
    );
    assert_eq!("refresh error: gone", app.prompt.text);
}

#[test]
fn test_requests_to_gpg() {
    let mut app = app();
    let home = ["--homedir", "/home/u/.gnupg"];
    let args = |rest: &[&str]| -> Vec<String> {
        home.iter().chain(rest.iter()).map(|v| v.to_string()).collect()
    };
    assert_eq!(
        Request::RunGpg(args(&["--full-gen-key"]), None),
        run(&mut app, Command::GenerateKey)
    );
    assert_eq!(
        Request::RunGpg(args(&["--refresh-keys"]), None),
        run(&mut app, Command::RefreshKeys)
    );
    assert_eq!(
        Request::RunGpg(args(&["--edit-key", "0xA"]), None),
        run(&mut app, Command::EditKey(String::from("0xA")))
    );
    app.gpgme.armor = true;
    app.gpgme.default_key = Some(String::from("0xD"));
    let settings = ["--homedir", "/home/u/.gnupg", "--armor", "--default-key", "0xD"];
    let args = |rest: &[&str]| -> Vec<String> {
        settings.iter().chain(rest.iter()).map(|v| v.to_string()).collect()
    };
    assert_eq!(
        Request::RunGpg(args(&["--sign-key", "0xA"]), None),
        run(&mut app, Command::SignKey(String::from("0xA")))
    );
    assert_eq!(
        Request::RunGpg(args(&["--receive-keys", "k1", "k2"]), None),
        run(
            &mut app,
            Command::ImportKeys(vec![String::from("k1"), String::from("k2")], true)
        )
    );
    let request = run(
        &mut app,
        Command::ExportKeys(KeyType::Secret, vec![String::from("0xS1")], true),
    );
    assert_eq!(
        Request::RunGpg(
            args(&[
                "--output",
                "/home/u/.gnupg/out/sec_0xS1.asc",
                "--export-secret-subkeys",
                "0xS1"
            ]),
            Some(String::from("export: /home/u/.gnupg/out/sec_0xS1.asc"))
        ),
        request
    );
    let request = app.respond(request, Response::Finished, 1);
    assert_eq!(
        Request::Reload(Some(String::from("export: /home/u/.gnupg/out/sec_0xS1.asc"))),
        request
    );
    assert_eq!(
        Request::Done,
        app.respond(
            Request::RunGpg(Vec::new(), None),
            Response::Failed(String::from("not found")),
            2
        )
    );
    assert_eq!("execution error: not found", app.prompt.text);
    assert_eq!("pub_out.pgp", get_export_file_name(KeyType::Public, &Vec::new(), false));
    assert_eq!(
        "sec_out.asc",
        get_export_file_name(KeyType::Secret, &vec![String::new(), String::new()], true)
    );
    assert_eq!("a/b", join_path("a", "b"));
    assert_eq!("a/b", join_path("a/", "b"));
    assert_eq!("b", join_path("", "b"));
    assert_eq!("/b", join_path("/", "b"));
}

#[test]
fn test_copy_and_paste() {
    let mut app = app();
    app.mode = Mode::Copy;
    let request = run(&mut app, Command::Copy(Selection::KeyId));
    assert_eq!(Request::WriteClipboard(String::from("0xA1"), Selection::KeyId), request);
    assert_eq!(Mode::Normal, app.mode);
    assert_eq!(Request::Done, app.respond(request, Response::Finished, 3));
    assert_eq!("key ID copied to clipboard", app.prompt.text);
    assert_eq!(
        Request::WriteClipboard(String::from("A1A1"), Selection::KeyFingerprint),
        run(&mut app, Command::Copy(Selection::KeyFingerprint))
    );
    assert_eq!(
        Request::WriteClipboard(String::from("user A1"), Selection::KeyUserId),
        run(&mut app, Command::Copy(Selection::KeyUserId))
    );
    assert_eq!(
        Request::WriteClipboard(String::from("[sc--] rsa3072/A1A1"), Selection::Row1),
        run(&mut app, Command::Copy(Selection::Row1))
    );
    app.keys_table.state.size = TableSize::Minimized;
    app.keys_table.items[0].detail = KeyDetail::Standard;
    assert_eq!(
        Request::WriteClipboard(
            String::from("[sc--] rsa3072/A1\n       └─(1970)"),
            Selection::Row1
        ),
        run(&mut app, Command::Copy(Selection::Row1))
    );
    assert_eq!(
        Request::WriteClipboard(String::from("[f] A1@example.org"), Selection::Row2),
        run(&mut app, Command::Copy(Selection::Row2))
    );
    let request = run(&mut app, Command::Copy(Selection::Key));
    assert_eq!(Request::ExportKey(KeyType::Public, String::from("0xA1")), request);
    assert_eq!(
        Request::WriteClipboard(String::from("-----BEGIN"), Selection::Key),
        app.respond(request, Response::Text(String::from("-----BEGIN")), 4)
    );
    app.mode = Mode::Copy;
    assert_eq!(
        Request::Done,
        app.respond(
            Request::ExportKey(KeyType::Public, String::new()),
            Response::Failed(String::from("nothing exported")),
            5
        )
    );
    assert_eq!("selection error: nothing exported", app.prompt.text);
    assert_eq!(Mode::Normal, app.mode);
    app.respond(
        Request::WriteClipboard(String::new(), Selection::Key),
        Response::Failed(String::from("no display")),
        6,
    );
    assert_eq!("clipboard error: no display", app.prompt.text);

    let request = run(&mut app, Command::Paste);
    assert_eq!(Request::ReadClipboard(ClipboardUse::Paste), request);
    app.respond(request, Response::Text(String::from("list sec")), 7);
    assert_eq!(":list sec", app.prompt.text);
    assert!(app.prompt.is_enabled());
    app.respond(
        Request::ReadClipboard(ClipboardUse::Paste),
        Response::Failed(String::from("empty")),
        8,
    );
    assert_eq!("clipboard error: empty", app.prompt.text);

    // without a clipboard
    app.clipboard = false;
    assert_eq!(Request::Done, run(&mut app, Command::Paste));
    assert_eq!("clipboard not available", app.prompt.text);
    assert_eq!(Request::Done, run(&mut app, Command::Copy(Selection::KeyId)));
    assert_eq!("clipboard not available", app.prompt.text);
    assert_eq!(Request::Done, run(&mut app, Command::ImportClipboard));
    assert_eq!("no files given", app.prompt.text);

    // an application that was started to select hands the content out and ends
    app.state.select = Some(Selection::KeyId);
    app.state.show_options = true;
    assert_eq!(Request::Done, run(&mut app, Command::Copy(Selection::KeyUserId)));
    assert_eq!(Some(String::from("user A1")), app.state.exit_message);
    assert!(!app.state.running);
    assert!(!app.state.show_options);
}

#[test]
fn test_confirmation() {
    let mut app = app();
    let delete = Command::DeleteKey(KeyType::Public, String::from("0xA1"));
    assert_eq!(
        Request::Done,
        run(&mut app, Command::Confirm(Box::new(delete.clone())))
    );
    assert_eq!("press 'y' to delete the selected key (pub)", app.prompt.text);
    assert_eq!(Some(delete.clone()), app.prompt.command);
    assert!(!app.prompt.is_enabled());
    // the question does not expire
    app.tick(1_000_000);
    assert_eq!(Some(delete.clone()), app.prompt.command);
    // 'y' gives the command that waits
    assert_eq!(delete, press(&mut app, Key_::Char('y'), KeyModifiers::none()));
    assert_eq!(Request::DeleteKey(KeyType::Public, String::from("0xA1")), run(&mut app, delete.clone()));
    assert_eq!(None, app.prompt.command);
    assert_eq!("", app.prompt.text);
    // 'n' and escape dismiss the question
    run(&mut app, Command::Confirm(Box::new(delete.clone())));
    assert_eq!(Command::NoOp, press(&mut app, Key_::Char('n'), KeyModifiers::none()));
    assert_eq!(None, app.prompt.command);
    run(&mut app, Command::Confirm(Box::new(delete.clone())));
    assert_eq!(Command::NoOp, press(&mut app, Key_::Esc, KeyModifiers::none()));
    assert_eq!(None, app.prompt.command);
    assert_eq!(Command::Quit, press(&mut app, Key_::Esc, KeyModifiers::none()));
    assert_eq!(Command::NoOp, press(&mut app, Key_::Char('y'), KeyModifiers::none()));
    // any other command dismisses the question too
    run(&mut app, Command::Confirm(Box::new(delete)));
    run(&mut app, Command::NoOp);
    assert_eq!(None, app.prompt.command);
}

#[test]
fn test_switch_mode_and_search() {
    let mut app = App::new(Vec::new(), Vec::new(), State::default(), config(), true, 0);
    run(&mut app, Command::SwitchMode(Mode::Copy));
    assert_eq!(Mode::Normal, app.mode);
    assert_eq!("", app.prompt.text);
    run(&mut app, Command::SwitchMode(Mode::Visual));
    assert_eq!("-- VISUAL --", app.prompt.text);
    assert_eq!(OutputType::Action, app.prompt.output_type);
    // a search that starts while a message is shown starts empty
    run(&mut app, Command::Search(Some(String::from("abc"))));
    assert_eq!("/", app.prompt.text);
    run(&mut app, Command::Search(Some(String::from("abc"))));
    assert_eq!("/abc", app.prompt.text);
    run(&mut app, Command::Search(None));
    assert_eq!("/", app.prompt.text);
    let mut app = self::app();
    app.keys_table.items.truncate(1);
    run(&mut app, Command::SwitchMode(Mode::Copy));
    assert_eq!(Mode::Copy, app.mode);
    run(&mut app, Command::Search(None));
    assert_eq!(3, app.keys_table.items.len());
    // with fewer rows than keys only the row is changed
    app.keys_table.items.truncate(2);
    run(&mut app, Command::ToggleDetail(false));
    assert_eq!(KeyDetail::Standard, app.keys_table.items[0].detail);
    assert_eq!(KeyDetail::Minimum, app.keys_table.default_items[0].detail);
    run(&mut app, Command::ToggleDetail(true));
    assert_eq!(KeyDetail::Standard, app.keys_table.items[1].detail);
    assert_eq!(KeyDetail::Standard, app.keys_table.default_items[2].detail);
}

fn context() -> InputContext {
    InputContext {
        show_options: false,
        pending_command: None,
        selected_key: Some(String::from("0xKEY")),
        tab: Tab::Keys(KeyType::Public),
        table_margin: 1,
        style: Style::Plain,
        armor: false,
        select: None,
        selected_option: None,
    }
}

#[test]
fn test_app_handler() {
    let mut app = app();
    let key_id = String::from("0xA1");
    let none = KeyModifiers::none();
    let control = KeyModifiers::control();
    let alt = KeyModifiers::alt();
    let test_cases = vec![
        (
            Command::Confirm(Box::new(Command::DeleteKey(KeyType::Public, key_id.to_string()))),
            vec![KeyEvent::new(Key_::Char('d'), none), KeyEvent::new(Key_::Backspace, none)],
        ),
        (
            Command::Confirm(Box::new(Command::SendKey(key_id.to_string()))),
            vec![KeyEvent::new(Key_::Char('u'), none)],
        ),
        (
            Command::ExportKeys(KeyType::Public, vec![key_id.to_string()], false),
            vec![KeyEvent::new(Key_::Char('x'), none)],
        ),
        (Command::EditKey(key_id.to_string()), vec![KeyEvent::new(Key_::Char('e'), none)]),
        (Command::SignKey(key_id), vec![KeyEvent::new(Key_::Char('s'), none)]),
        (Command::ShowHelp, vec![KeyEvent::new(Key_::Char('?'), none)]),
        (
            Command::ShowOptions,
            vec![
                KeyEvent::new(Key_::Char('o'), none),
                KeyEvent::new(Key_::Char(' '), none),
                KeyEvent::new(Key_::Enter, none),
            ],
        ),
        (Command::GenerateKey, vec![KeyEvent::new(Key_::Char('g'), none)]),
        (Command::RefreshKeys, vec![KeyEvent::new(Key_::Char('r'), control)]),
        (Command::ToggleDetail(true), vec![KeyEvent::new(Key_::Char('t'), none)]),
        (Command::ToggleDetail(false), vec![KeyEvent::new(Key_::Tab, none)]),
        (
            Command::Scroll(ScrollDirection::Top, false),
            vec![
                KeyEvent::new(Key_::Up, control),
                KeyEvent::new(Key_::Char('k'), control),
                KeyEvent::new(Key_::PageUp, none),
            ],
        ),
        (
            Command::Scroll(ScrollDirection::Up(1), false),
            vec![KeyEvent::new(Key_::Up, none), KeyEvent::new(Key_::Char('k'), none)],
        ),
        (
            Command::Scroll(ScrollDirection::Right(1), true),
            vec![KeyEvent::new(Key_::Right, alt), KeyEvent::new(Key_::Char('l'), alt)],
        ),
        (
            Command::Scroll(ScrollDirection::Bottom, false),
            vec![
                KeyEvent::new(Key_::Down, control),
                KeyEvent::new(Key_::Char('j'), control),
                KeyEvent::new(Key_::PageDown, none),
            ],
        ),
        (
            Command::Scroll(ScrollDirection::Down(1), false),
            vec![KeyEvent::new(Key_::Down, none), KeyEvent::new(Key_::Char('j'), none)],
        ),
        (
            Command::Scroll(ScrollDirection::Left(1), true),
            vec![KeyEvent::new(Key_::Left, alt), KeyEvent::new(Key_::Char('h'), alt)],
        ),
        (
            Command::SetOption(String::from("margin"), String::from("0")),
            vec![KeyEvent::new(Key_::Char('`'), none)],
        ),
        (
            Command::ChangeStyle(Style::Colored),
            vec![KeyEvent::new(Key_::Char('s'), control)],
        ),
        (
            Command::SetOption(String::from("armor"), String::from("true")),
            vec![KeyEvent::new(Key_::Char('a'), none)],
        ),
        (
            Command::SetOption(String::from("detail"), String::from("minimum")),
            vec![KeyEvent::new(Key_::Char('1'), none)],
        ),
        (
            Command::SetOption(String::from("detail"), String::from("standard")),
            vec![KeyEvent::new(Key_::Char('2'), none)],
        ),
        (
            Command::SetOption(String::from("detail"), String::from("full")),
            vec![KeyEvent::new(Key_::Char('3'), none)],
        ),
        (
            Command::SetOption(String::from("prompt"), String::from(":import ")),
            vec![KeyEvent::new(Key_::Char('i'), none)],
        ),
        (
            Command::SetOption(String::from("prompt"), String::from(":receive ")),
            vec![KeyEvent::new(Key_::Char('f'), none)],
        ),
        (Command::ToggleTableSize, vec![KeyEvent::new(Key_::Char('m'), none)]),
        (Command::SwitchMode(Mode::Normal), vec![KeyEvent::new(Key_::Char('n'), none)]),
        (Command::SwitchMode(Mode::Visual), vec![KeyEvent::new(Key_::Char('v'), none)]),
        (Command::SwitchMode(Mode::Copy), vec![KeyEvent::new(Key_::Char('c'), none)]),
        (Command::Paste, vec![KeyEvent::new(Key_::Char('v'), control)]),
        (Command::Paste, vec![KeyEvent::new(Key_::Char('p'), none)]),
        (Command::EnableInput, vec![KeyEvent::new(Key_::Char(':'), control)]),
        (Command::Search(None), vec![KeyEvent::new(Key_::Char('/'), control)]),
        (
            Command::NextTab,
            vec![KeyEvent::new(Key_::Right, control), KeyEvent::new(Key_::Char('l'), none)],
        ),
        (
            Command::PreviousTab,
            vec![KeyEvent::new(Key_::Left, control), KeyEvent::new(Key_::Char('h'), none)],
        ),
        (
            Command::Refresh,
            vec![KeyEvent::new(Key_::Char('r'), none), KeyEvent::new(Key_::F(5), none)],
        ),
        (
            Command::Quit,
            vec![
                KeyEvent::new(Key_::Char('q'), none),
                KeyEvent::new(Key_::Esc, none),
                KeyEvent::new(Key_::Char('d'), control),
                KeyEvent::new(Key_::Char('c'), control),
            ],
        ),
        (Command::NoOp, vec![KeyEvent::new(Key_::Char('y'), none)]),
        (Command::NoOp, vec![KeyEvent::new(Key_::Char('ö'), none)]),
    ];
    for (command, key_events) in test_cases {
        for key_event in key_events {
            assert_eq!(
                command,
                handle_key_event(key_event, &Vec::new(), &mut app, 0),
                "{:?}",
                key_event
            );
        }
    }
    app.prompt.enable_command_input();
    handle_key_event(KeyEvent::new(Key_::Esc, none), &Vec::new(), &mut app, 0);
    assert!(!app.prompt.is_enabled());
    app.prompt.enable_search();
    handle_key_event(KeyEvent::new(Key_::Tab, none), &Vec::new(), &mut app, 0);
    for c in String::from("normal-").chars() {
        handle_key_event(KeyEvent::new(Key_::Char(c), none), &Vec::new(), &mut app, 0);
    }
    handle_key_event(KeyEvent::new(Key_::Backspace, none), &Vec::new(), &mut app, 0);
    assert_eq!(":normal", app.prompt.text);
    assert_eq!(
        Command::SwitchMode(Mode::Normal),
        handle_key_event(KeyEvent::new(Key_::Enter, none), &Vec::new(), &mut app, 0)
    );
    app.prompt.enable_command_input();
    handle_key_event(KeyEvent::new(Key_::Down, none), &Vec::new(), &mut app, 0);
    handle_key_event(KeyEvent::new(Key_::Up, none), &Vec::new(), &mut app, 0);
    assert_eq!(":normal", app.prompt.text);
    handle_key_event(KeyEvent::new(Key_::Enter, none), &Vec::new(), &mut app, 0);
    assert_eq!(
        Command::SwitchMode(Mode::Visual),
        handle_key_event(
            KeyEvent::new(Key_::Char('M'), none),
            &vec![CustomKeyBinding {
                keys: vec![KeyEvent::new(Key_::Char('M'), none)],
                command: Command::SwitchMode(Mode::Visual),
            }],
            &mut app,
            0,
        )
    );
}

#[test]
fn test_custom_bindings_come_first() {
    let context = context();
    let q = KeyEvent::new(Key_::Char('q'), KeyModifiers::none());
    let bindings = vec![
        CustomKeyBinding { keys: Vec::new(), command: Command::Paste },
        CustomKeyBinding {
            keys: vec![KeyEvent::new(Key_::Char('q'), KeyModifiers::control()), q],
            command: Command::ShowHelp,
        },
        CustomKeyBinding { keys: vec![q], command: Command::Refresh },
    ];
    // the built-in table says that `q` quits
    assert_eq!(Command::Quit, resolve_builtin(q, Mode::Normal, &context).command);
    let resolved = resolve(q, &bindings, Mode::Normal, &context);
    assert_eq!(Command::ShowHelp, resolved.command);
    assert!(!resolved.clear_prompt);
    for mode in [Mode::Normal, Mode::Visual, Mode::Copy] {
        assert_eq!(Command::ShowHelp, resolve(q, &bindings, mode, &context).command);
    }
    // chords are told apart by case and by modifiers
    let upper = KeyEvent::new(Key_::Char('Q'), KeyModifiers::none());
    assert_eq!(Command::Quit, resolve(upper, &bindings, Mode::Normal, &context).command);
    let shifted = KeyEvent::new(Key_::Char('q'), KeyModifiers::shift());
    assert_eq!(Command::Quit, resolve(shifted, &bindings, Mode::Normal, &context).command);
    // a key that nothing maps does nothing
    let other = KeyEvent::new(Key_::Other, KeyModifiers::none());
    assert_eq!(Command::NoOp, resolve(other, &bindings, Mode::Normal, &context).command);
    assert_eq!(
        Command::NoOp,
        resolve(KeyEvent::new(Key_::Delete, KeyModifiers::none()), &bindings, Mode::Copy, &context)
            .command
    );
}

#[test]
fn test_builtin_table_depends_on_mode_and_context() {
    let none = KeyModifiers::none();
    let event = |c: char| KeyEvent::new(Key_::Char(c), none);
    let mut context = context();
    for (c, selection) in [
        ('x', Selection::Key),
        ('1', Selection::Row1),
        ('2', Selection::Row2),
        ('i', Selection::KeyId),
        ('f', Selection::KeyFingerprint),
        ('u', Selection::KeyUserId),
        ('U', Selection::KeyUserId),
    ] {
        assert_eq!(
            Command::Copy(selection),
            resolve_builtin(event(c), Mode::Copy, &context).command
        );
    }
    assert_eq!(
        Command::SetOption(String::from("detail"), String::from("full")),
        resolve_builtin(event('3'), Mode::Copy, &context).command
    );
    assert_eq!(
        Command::SwitchMode(Mode::Normal),
        resolve_builtin(KeyEvent::new(Key_::Esc, none), Mode::Copy, &context).command
    );
    context.tab = Tab::Keys(KeyType::Secret);
    assert_eq!(
        Command::ExportKeys(KeyType::Secret, vec![String::from("0xKEY")], false),
        resolve_builtin(event('X'), Mode::Visual, &context).command
    );
    context.tab = Tab::Help;
    assert_eq!(
        Command::Confirm(Box::new(Command::DeleteKey(KeyType::Public, String::from("0xKEY")))),
        resolve_builtin(event('D'), Mode::Normal, &context).command
    );
    context.selected_key = None;
    for c in ['d', 's', 'e', 'x', 'u'] {
        assert_eq!(
            Command::ShowOutput(OutputType::Failure, String::from("invalid selection")),
            resolve_builtin(event(c), Mode::Normal, &context).command
        );
    }
    assert_eq!(
        Command::Quit,
        resolve_builtin(KeyEvent::new(Key_::Char('d'), KeyModifiers::control()), Mode::Normal, &context)
            .command
    );
    assert_eq!(
        Command::ShowOutput(OutputType::Failure, String::from("invalid selection")),
        resolve_builtin(KeyEvent::new(Key_::Backspace, KeyModifiers::control()), Mode::Normal, &context)
            .command
    );
    context.table_margin = 0;
    context.armor = true;
    context.style = Style::Colored;
    assert_eq!(
        Command::SetOption(String::from("margin"), String::from("1")),
        resolve_builtin(event('`'), Mode::Normal, &context).command
    );
    assert_eq!(
        Command::SetOption(String::from("armor"), String::from("false")),
        resolve_builtin(event('A'), Mode::Normal, &context).command
    );
    assert_eq!(
        Command::ChangeStyle(Style::Plain),
        resolve_builtin(KeyEvent::new(Key_::Char('S'), KeyModifiers::control()), Mode::Normal, &context)
            .command
    );
    assert_eq!(
        Command::Scroll(ScrollDirection::Up(1), true),
        resolve_builtin(KeyEvent::new(Key_::Char('K'), KeyModifiers::alt()), Mode::Normal, &context)
            .command
    );
    // the options menu
    context.show_options = true;
    assert_eq!(
        Command::NoOp,
        resolve_builtin(KeyEvent::new(Key_::Enter, none), Mode::Normal, &context).command
    );
    context.selected_option = Some(Command::Paste);
    assert_eq!(
        Command::Paste,
        resolve_builtin(event(' '), Mode::Normal, &context).command
    );
    let resolved = resolve_builtin(KeyEvent::new(Key_::Esc, none), Mode::Normal, &context);
    assert_eq!(Command::NoOp, resolved.command);
    assert!(!resolved.clear_prompt);
    context.select = Some(Selection::Row2);
    assert_eq!(
        Command::Copy(Selection::Row2),
        resolve_builtin(event('o'), Mode::Normal, &context).command
    );
    // a question
    context.show_options = false;
    context.pending_command = Some(Command::Quit);
    let resolved = resolve_builtin(event('N'), Mode::Normal, &context);
    assert_eq!(Command::NoOp, resolved.command);
    assert!(resolved.clear_prompt);
    assert_eq!(Command::Quit, resolve_builtin(event('Y'), Mode::Normal, &context).command);
}

#[test]
fn test_prompt_keys() {
    let none = KeyModifiers::none();
    let mut prompt = Prompt::default();
    prompt.enable_command_input();
    let mut hit = |prompt: &mut Prompt, code: Key_| {
        handle_prompt_key(prompt, KeyEvent::new(code, none), 50)
    };
    assert_eq!((Command::NoOp, TableAction::Keep), hit(&mut prompt, Key_::Char('q')));
    assert_eq!(":q", prompt.text);
    assert_eq!((Command::NoOp, TableAction::Keep), hit(&mut prompt, Key_::Tab));
    assert_eq!("/q", prompt.text);
    assert_eq!((Command::NoOp, TableAction::ResetState), hit(&mut prompt, Key_::Char('x')));
    assert_eq!((Command::NoOp, TableAction::ResetState), hit(&mut prompt, Key_::Backspace));
    assert_eq!((Command::NoOp, TableAction::RestoreItems), hit(&mut prompt, Key_::Tab));
    assert_eq!(":q", prompt.text);
    assert_eq!((Command::NoOp, TableAction::Keep), hit(&mut prompt, Key_::F(1)));
    assert_eq!((Command::Quit, TableAction::Keep), hit(&mut prompt, Key_::Enter));
    assert_eq!("", prompt.text);
    assert_eq!(vec![String::from(":q")], prompt.history);
    // a text that is no command stays in the message
    prompt.text = String::from(":bogus now");
    assert_eq!((Command::NoOp, TableAction::Keep), hit(&mut prompt, Key_::Enter));
    assert_eq!("invalid command: bogus now", prompt.text);
    assert_eq!(OutputType::Failure, prompt.output_type);
    assert_eq!(Some(50), prompt.clock);
    assert_eq!(1, prompt.history.len());
    // a search is not submitted, and a bare prefix is nothing to submit
    prompt.clear();
    prompt.text = String::from("/quit");
    assert_eq!((Command::NoOp, TableAction::Keep), hit(&mut prompt, Key_::Enter));
    assert_eq!("", prompt.text);
    prompt.text = String::from(":");
    hit(&mut prompt, Key_::Enter);
    assert_eq!("", prompt.text);
    assert!(prompt.history.len() == 1);
    prompt.text = String::from("ö");
    hit(&mut prompt, Key_::Enter);
    assert_eq!("invalid command: ö", prompt.text);
    prompt.clear();
    hit(&mut prompt, Key_::Backspace);
    assert_eq!("", prompt.text);
    hit(&mut prompt, Key_::Up);
    assert_eq!(":q", prompt.text);
    hit(&mut prompt, Key_::Down);
    assert_eq!(":", prompt.text);
    hit(&mut prompt, Key_::Esc);
    assert_eq!("", prompt.text);
}

#[test]
fn test_search_resets_the_table() {
    let mut app = app();
    app.keys_table.state.tui.select(Some(2));
    app.keys_table.items.truncate(1);
    run(&mut app, Command::Search(None));
    app.keys_table.items.truncate(1);
    press(&mut app, Key_::Char('b'), KeyModifiers::none());
    assert_eq!("/b", app.prompt.text);
    assert_eq!(3, app.keys_table.items.len());
    assert_eq!(Some(0), app.keys_table.state.tui.selected());
    app.keys_table.items.truncate(1);
    app.keys_table.state.tui.select(Some(1));
    press(&mut app, Key_::Tab, KeyModifiers::none());
    assert_eq!(":b", app.prompt.text);
    assert_eq!(3, app.keys_table.items.len());
    assert_eq!(Some(1), app.keys_table.state.tui.selected());
}

#[test]
fn test_command_execution() {
    let mut app = app();
    let plan = |command: Command, app: &App| handle_command_execution(command, app);
    let execution = plan(Command::SwitchMode(Mode::Normal), &app);
    assert_eq!(MouseCapture::Enable, execution.mouse);
    assert!(!execution.pause && !execution.pick_files);
    assert_eq!(MouseCapture::Enable, plan(Command::Refresh, &app).mouse);
    assert_eq!(MouseCapture::Disable, plan(Command::SwitchMode(Mode::Visual), &app).mouse);
    assert_eq!(MouseCapture::Keep, plan(Command::SwitchMode(Mode::Copy), &app).mouse);
    assert_eq!(MouseCapture::Enable, plan(set("mode", "N"), &app).mouse);
    assert_eq!(MouseCapture::Disable, plan(set("mode", "visual"), &app).mouse);
    assert_eq!(MouseCapture::Keep, plan(set("mode", "copy"), &app).mouse);
    let execution = plan(set("prompt", ":import "), &app);
    assert!(execution.pause && execution.pick_files);
    assert_eq!(set("prompt", ":import "), execution.command);
    assert!(!plan(set("prompt", ":receive "), &app).pause);
    for command in [
        Command::ExportKeys(KeyType::Public, Vec::new(), false),
        Command::DeleteKey(KeyType::Public, String::new()),
        Command::GenerateKey,
        Command::RefreshKeys,
        Command::EditKey(String::new()),
        Command::SignKey(String::new()),
        Command::ImportKeys(Vec::new(), true),
    ] {
        let execution = plan(command.clone(), &app);
        assert!(execution.pause, "{:?}", command);
        assert_eq!(command, execution.command);
    }
    assert!(!plan(Command::ImportKeys(Vec::new(), false), &app).pause);
    assert_eq!(
        Command::ShowOutput(
            OutputType::Warning,
            String::from("enable armored output for copying the exported key(s)")
        ),
        plan(Command::Copy(Selection::Key), &app).command
    );
    app.gpgme.armor = true;
    let execution = plan(Command::Copy(Selection::Key), &app);
    assert!(execution.pause);
    assert_eq!(Command::Copy(Selection::Key), execution.command);
    assert!(!plan(Command::Copy(Selection::KeyId), &app).pause);
    // the splash screen lets only the end through
    app.state.show_splash = true;
    assert_eq!(Command::NoOp, plan(Command::GenerateKey, &app).command);
    assert!(!plan(Command::GenerateKey, &app).pause);
    assert_eq!(Command::Quit, plan(Command::Quit, &app).command);
    app.state.show_splash = false;
    // the help tab lets nothing through that needs a key
    app.tab = Tab::Help;
    for command in [
        Command::ShowOptions,
        Command::ChangeStyle(Style::Colored),
        Command::Scroll(ScrollDirection::Top, true),
        Command::ListKeys(KeyType::Secret),
        Command::SwitchMode(Mode::Copy),
        Command::Paste,
        Command::EnableInput,
        Command::NextTab,
        Command::PreviousTab,
        Command::Refresh,
        Command::Quit,
        Command::NoOp,
        set("style", "colored"),
    ] {
        assert_eq!(command, admit_command(command.clone(), false, Tab::Help));
    }
    for command in [
        Command::ShowHelp,
        Command::GenerateKey,
        Command::Copy(Selection::Key),
        set("armor", "true"),
        Command::Get(String::from("armor")),
        Command::Search(None),
        Command::Confirm(Box::new(Command::Quit)),
        Command::ToggleDetail(true),
    ] {
        assert_eq!(Command::NoOp, plan(command, &app).command);
    }
    assert_eq!(
        Command::GenerateKey,
        admit_command(Command::GenerateKey, false, Tab::Keys(KeyType::Public))
    );
    assert!(!plan_execution(Command::NoOp, true).pause);
    assert_eq!(
        Command::ImportKeys(vec![String::from("a")], false),
        import_picked_files(vec![String::from("a")])
    );
}

#[test]
fn test_refresh_takes_the_keys_anew() {
    let mut app = app();
    run(&mut app, Command::ListKeys(KeyType::Secret));
    run(&mut app, Command::SwitchMode(Mode::Visual));
    app.keys_table_margin = 3;
    app.state.style = Style::Colored;
    app.refresh(vec![key("A1")], vec![key("S1"), key("S2")]);
    assert_eq!(Tab::Keys(KeyType::Secret), app.tab);
    assert_eq!(Mode::Normal, app.mode);
    assert_eq!(1, app.keys_table_margin);
    assert_eq!(Style::Colored, app.state.style);
    assert_eq!(2, app.keys_table.items.len());
    assert_eq!(2, app.keys_table.default_items.len());
    assert_eq!(Some(0), app.keys_table.state.tui.selected());
    assert_eq!(1, app.public_keys.len());
    assert_eq!(String::new(), app.prompt.text);
    assert!(app.public_table_state.is_none());
    assert!(app.secret_table_state.is_none());
}
