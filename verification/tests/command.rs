use gpg_tui::app::command::Command;
use gpg_tui::app::mode::Mode;
use gpg_tui::app::output::OutputType;
use gpg_tui::app::selection::Selection;
use gpg_tui::app::style::Style;
use gpg_tui::error::ParseError;
use gpg_tui::gpg::key::KeyType;
use gpg_tui::widget::row::ScrollDirection;

fn parse(text: &str) -> Command {
    Command::from_str(text).unwrap()
}

#[test]
fn test_app_command() {
    assert_eq!(
        Command::Confirm(Box::new(Command::NoOp)),
        parse(":confirm none")
    );
    assert_eq!(Command::ShowHelp, parse(":help"));
    assert_eq!(
        Command::ShowOutput(OutputType::Success, String::from("operation successful"),),
        parse(":out success operation successful")
    );
    assert_eq!(Command::ChangeStyle(Style::Colored), parse(":style colored"));
    assert_eq!(Command::ChangeStyle(Style::Plain), parse(":style plain"));
    assert_eq!(Command::ShowOptions, parse(":options"));
    for cmd in &[":list", ":list pub", ":ls", ":ls pub"] {
        let command = parse(cmd);
        assert_eq!(Command::ListKeys(KeyType::Public), command);
    }
    for cmd in &[":list sec", ":ls sec"] {
        let command = parse(cmd);
        assert_eq!(Command::ListKeys(KeyType::Secret), command);
    }
    assert_eq!(
        Command::ImportKeys(
            vec![
                String::from("Test1"),
                String::from("Test2"),
                String::from("tesT3")
            ],
            false
        ),
        parse(":import Test1 Test2 tesT3")
    );
    assert_eq!(
        Command::ImportKeys(vec![String::from("Test"),], true),
        parse(":receive Test")
    );
    assert_eq!(Command::ImportClipboard, parse(":import-clipboard"));
    for cmd in &[":export", ":export pub", ":exp", ":exp pub"] {
        let command = parse(cmd);
        assert_eq!(
            Command::ExportKeys(KeyType::Public, Vec::new(), false),
            command
        );
    }
    assert_eq!(
        Command::ExportKeys(
            KeyType::Public,
            vec![String::from("test1"), String::from("test2")],
            false
        ),
        parse(":export pub test1 test2")
    );
    assert_eq!(
        Command::ExportKeys(
            KeyType::Secret,
            vec![String::from("test3"), String::from("test4")],
            true
        ),
        parse(":export sec test3 test4 subkey")
    );
    for cmd in &[":export sec", ":exp sec"] {
        let command = parse(cmd);
        assert_eq!(
            Command::ExportKeys(KeyType::Secret, Vec::new(), false),
            command
        );
    }
    assert_eq!(
        Command::ExportKeys(
            KeyType::Secret,
            vec![
                String::from("test1"),
                String::from("test2"),
                String::from("test3")
            ],
            false
        ),
        parse(":export sec test1 test2 test3")
    );
    for cmd in &[":delete pub xyz", ":del pub xyz"] {
        let command = parse(cmd);
        assert_eq!(
            Command::DeleteKey(KeyType::Public, String::from("xyz")),
            command
        );
    }
    assert_eq!(Command::SendKey(String::from("test")), parse(":send test"));
    assert_eq!(Command::EditKey(String::from("test")), parse(":edit test"));
    assert_eq!(Command::SignKey(String::from("test")), parse(":sign test"));
    assert_eq!(Command::GenerateKey, parse(":generate"));
    assert_eq!(Command::RefreshKeys, parse(":refresh keys"));
    for cmd in &[":toggle detail all", ":t detail all"] {
        let command = parse(cmd);
        assert_eq!(Command::ToggleDetail(true), command);
    }
    assert_eq!(Command::ToggleTableSize, parse(":toggle"));
    for cmd in &[":scroll up 1", ":scroll u 1"] {
        let command = parse(cmd);
        assert_eq!(Command::Scroll(ScrollDirection::Up(1), false), command);
    }
    for cmd in &[":set armor true", ":s armor true"] {
        let command = parse(cmd);
        assert_eq!(
            Command::SetOption(String::from("armor"), String::from("true")),
            command
        );
    }
    for cmd in &[":get armor", ":g armor"] {
        let command = parse(cmd);
        assert_eq!(Command::Get(String::from("armor")), command);
    }
    assert_eq!(
        Command::SetOption(String::from("test"), String::from("_")),
        parse(":set test _")
    );
    for cmd in &[":normal", ":n"] {
        let command = parse(cmd);
        assert_eq!(Command::SwitchMode(Mode::Normal), command);
    }
    for cmd in &[":visual", ":v"] {
        let command = parse(cmd);
        assert_eq!(Command::SwitchMode(Mode::Visual), command);
    }
    for cmd in &[":copy", ":c"] {
        let command = parse(cmd);
        assert_eq!(Command::SwitchMode(Mode::Copy), command);
    }
    for cmd in &[":paste", ":p"] {
        let command = parse(cmd);
        assert_eq!(Command::Paste, command);
    }
    assert_eq!(
        Command::Search(Some(String::from("q"))),
        parse(":search q")
    );
    assert_eq!(Command::EnableInput, parse(":input"));
    assert_eq!(Command::NextTab, parse(":next"));
    assert_eq!(Command::PreviousTab, parse(":prev"));
    assert_eq!(Command::Refresh, parse(":refresh"));
    for cmd in &[":quit", ":q", ":q!"] {
        let command = parse(cmd);
        assert_eq!(Command::Quit, command);
    }
    assert_eq!(Command::NoOp, parse(":none"));
    assert!(Command::from_str("test").is_err());

    assert_eq!("close menu", Command::NoOp.to_string());
    assert_eq!("show help", Command::ShowHelp.to_string());
    assert_eq!(
        "disable colors",
        Command::ChangeStyle(Style::Plain).to_string()
    );
    assert_eq!(
        "enable colors",
        Command::ChangeStyle(Style::Colored).to_string()
    );
    assert_eq!("refresh application", Command::Refresh.to_string());
    assert_eq!("refresh the keyring", Command::RefreshKeys.to_string());
    assert_eq!(
        "list public keys",
        Command::ListKeys(KeyType::Public).to_string()
    );
    assert_eq!(
        "export all the keys (sec)",
        Command::ExportKeys(KeyType::Secret, Vec::new(), false).to_string()
    );
    assert_eq!(
        "export the selected subkeys (sec)",
        Command::ExportKeys(KeyType::Secret, vec![String::new()], true).to_string()
    );
    assert_eq!(
        "export the selected key (pub)",
        Command::ExportKeys(KeyType::Public, vec![String::new()], false).to_string()
    );
    assert_eq!(
        "delete the selected key (pub)",
        Command::DeleteKey(KeyType::Public, String::new()).to_string()
    );
    assert_eq!(
        "send key to the keyserver",
        Command::SendKey(String::new()).to_string()
    );
    assert_eq!(
        "edit the selected key",
        Command::EditKey(String::new()).to_string()
    );
    assert_eq!(
        "sign the selected key",
        Command::SignKey(String::new()).to_string()
    );
    assert_eq!("generate a new key pair", Command::GenerateKey.to_string());
    assert_eq!(
        "copy exported key",
        Command::Copy(Selection::Key).to_string()
    );
    assert_eq!("paste from clipboard", Command::Paste.to_string());
    assert_eq!(
        "toggle detail (all)",
        Command::ToggleDetail(true).to_string()
    );
    assert_eq!(
        "toggle detail (selected)",
        Command::ToggleDetail(false).to_string()
    );
    assert_eq!("toggle table size", Command::ToggleTableSize.to_string());
    assert_eq!(
        "disable armored output",
        Command::SetOption(String::from("armor"), String::from("false")).to_string()
    );
    assert_eq!(
        "set style to colored",
        Command::SetOption(String::from("style"), String::from("colored")).to_string()
    );
    assert_eq!(
        "toggle table margin",
        Command::SetOption(String::from("margin"), String::new()).to_string()
    );
    assert_eq!(
        "import key(s) from a file",
        Command::SetOption(String::from("prompt"), String::from(":import ")).to_string()
    );
    assert_eq!(
        "import key(s) from clipboard",
        Command::ImportClipboard.to_string()
    );
    assert_eq!(
        "receive key(s) from keyserver",
        Command::SetOption(String::from("prompt"), String::from(":receive ")).to_string()
    );
    assert_eq!(
        "set prompt text to xyz",
        Command::SetOption(String::from("prompt"), String::from("xyz")).to_string()
    );
    assert_eq!(
        "set x to y",
        Command::SetOption(String::from("x"), String::from("y")).to_string()
    );
    assert_eq!(
        "switch to visual mode",
        Command::SwitchMode(Mode::Visual).to_string()
    );
    assert_eq!(
        "refresh application",
        Command::Confirm(Box::new(Command::Refresh)).to_string()
    );
    assert_eq!("quit application", Command::Quit.to_string());
    assert_eq!("NextTab", Command::NextTab.to_string());
}

#[test]
fn test_command_errors_carry_the_text() {
    for text in ["", ":", "test", ":qx", ":list xyz", ":send", ":edit", ":sign",
        ":out", ":mode", ":mode x", ":copy nothing", ":confirm bogus", "a:list", ": list x:"] {
        assert_eq!(
            Err(ParseError::InvalidCommand(text.to_string())),
            Command::from_str(text),
            "{:?}",
            text
        );
    }
    assert_eq!(
        "invalid command: :qx",
        Command::from_str(":qx").unwrap_err().to_string()
    );
    assert_eq!(":qx", Command::from_str(":qx").unwrap_err().text());
}

#[test]
fn test_command_sigil_and_case() {
    assert_eq!(Command::Quit, parse("quit"));
    assert_eq!(Command::Quit, parse(":QUIT"));
    assert_eq!(Command::Quit, parse(": \t quit  now"));
    assert!(Command::from_str("::quit").is_err());
    // only a leading sigil is taken away
    assert_eq!(
        Command::SetOption(String::from("x"), String::from(":y")),
        parse(":set x :y")
    );
    assert_eq!(
        Command::ImportKeys(vec![String::from("C:/Keys/A.asc")], false),
        parse(":IMPORT C:/Keys/A.asc")
    );
    assert_eq!(Command::ImportKeys(Vec::new(), true), parse("receive"));
}

#[test]
fn test_command_arguments() {
    assert_eq!(Command::ChangeStyle(Style::Plain), parse(":style"));
    assert_eq!(Command::ChangeStyle(Style::Plain), parse(":style fancy"));
    assert_eq!(
        Command::ShowOutput(OutputType::Silent, String::new()),
        parse(":output hello")
    );
    assert_eq!(
        Command::ShowOutput(OutputType::Failure, String::from("a b")),
        parse(":output Failure a   b")
    );
    assert_eq!(Command::ListKeys(KeyType::Public), parse(":list ub"));
    assert_eq!(Command::ListKeys(KeyType::Secret), parse(":list e"));
    assert!(Command::from_str(":list pubx").is_err());
    assert_eq!(
        Command::ExportKeys(KeyType::Public, Vec::new(), true),
        parse(":export pub subkey")
    );
    assert!(Command::from_str(":export subkey").is_err());
    assert_eq!(
        Command::ExportKeys(KeyType::Secret, vec![String::from("subkey")], true),
        parse(":export sec subkey subkey")
    );
    assert_eq!(
        Command::DeleteKey(KeyType::Public, String::new()),
        parse(":delete")
    );
    assert_eq!(
        Command::DeleteKey(KeyType::Secret, String::from("0xABCDEF12")),
        parse(":delete sec 0xabCDef12 more")
    );
    assert_eq!(
        Command::DeleteKey(KeyType::Secret, String::from("abcdef12")),
        parse(":delete sec ABCDEF12")
    );
    assert_eq!(Command::Copy(Selection::Row1), parse(":copy 1"));
    assert_eq!(Command::Copy(Selection::KeyId), parse(":c key_id"));
    assert_eq!(Command::Copy(Selection::KeyFingerprint), parse(":c fpr"));
    assert_eq!(Command::Copy(Selection::KeyUserId), parse(":c user-id"));
    assert_eq!(Command::ToggleDetail(false), parse(":t detail"));
    assert_eq!(Command::ToggleDetail(false), parse(":t detail some"));
    assert_eq!(Command::ToggleTableSize, parse(":t size"));
    assert_eq!(
        Command::Scroll(ScrollDirection::Down(1), false),
        parse(":scroll")
    );
    assert_eq!(
        Command::Scroll(ScrollDirection::Down(1), true),
        parse(":scroll row")
    );
    assert_eq!(
        Command::Scroll(ScrollDirection::Left(7), true),
        parse(":scroll row left 7")
    );
    assert_eq!(
        Command::Scroll(ScrollDirection::Bottom, false),
        parse(":scroll b 3")
    );
    assert_eq!(
        Command::Scroll(ScrollDirection::Down(1), false),
        parse(":scroll sideways 3")
    );
    assert_eq!(
        Command::SetOption(String::new(), String::new()),
        parse(":set")
    );
    assert_eq!(Command::Get(String::new()), parse(":get"));
    assert_eq!(Command::SwitchMode(Mode::Copy), parse(":mode c"));
    assert_eq!(Command::SwitchMode(Mode::Visual), parse(":m VISUAL"));
    assert_eq!(Command::Search(None), parse(":search"));
    assert_eq!(Command::Refresh, parse(":r key"));
    assert_eq!(Command::RefreshKeys, parse(":r keys now"));
}

#[test]
fn test_command_confirm() {
    assert_eq!(Command::Confirm(Box::new(Command::NoOp)), parse(":confirm"));
    assert_eq!(
        Command::Confirm(Box::new(Command::Quit)),
        parse(":confirm :quit")
    );
    assert_eq!(
        Command::Confirm(Box::new(Command::Quit)),
        parse(":confirm : quit")
    );
    assert_eq!(
        Command::Confirm(Box::new(Command::Confirm(Box::new(Command::DeleteKey(
            KeyType::Secret,
            String::from("abc")
        ))))),
        parse(":confirm confirm delete sec abc")
    );
    // what is confirmed was put in lower case with the rest
    assert_eq!(
        Command::Confirm(Box::new(Command::ImportKeys(
            vec![String::from("file.asc")],
            false
        ))),
        parse(":confirm import File.ASC")
    );
    assert!(Command::from_str(":confirm :").is_err());
}

#[test]
fn test_command_aliases_agree() {
    let groups: [&[&str]; 19] = [
        &["help", "h"],
        &["output x y", "out x y"],
        &["options", "opt"],
        &["list sec", "ls sec"],
        &["export sec a subkey", "exp sec a subkey"],
        &["delete pub 0xab", "del pub 0xab"],
        &["generate", "gen"],
        &["copy", "c"],
        &["copy key", "c key"],
        &["toggle detail all", "t detail all"],
        &["set a b", "s a b"],
        &["get a", "g a"],
        &["mode visual", "m visual"],
        &["normal", "n"],
        &["visual", "v"],
        &["paste", "p"],
        &["previous", "prev"],
        &["refresh keys", "r keys"],
        &["quit", "q", "q!"],
    ];
    for group in groups {
        let first = parse(group[0]);
        for alias in group {
            assert_eq!(first, parse(alias), "{}", alias);
            assert_eq!(first, parse(&format!(":{}", alias.to_uppercase())));
        }
    }
}

#[test]
fn test_command_descriptions_written_as_code() {
    assert_eq!("ShowOptions", Command::ShowOptions.to_string());
    assert_eq!("EnableInput", Command::EnableInput.to_string());
    assert_eq!("PreviousTab", Command::PreviousTab.to_string());
    assert_eq!(
        "ShowOutput(Failure, \"a \\\"b\\\"\\n\")",
        Command::ShowOutput(OutputType::Failure, String::from("a \"b\"\n")).to_string()
    );
    assert_eq!(
        "ShowOutput(None, \"\")",
        Command::ShowOutput(OutputType::Silent, String::new()).to_string()
    );
    assert_eq!(
        "ImportKeys([], true)",
        Command::ImportKeys(Vec::new(), true).to_string()
    );
    assert_eq!(
        "ImportKeys([\"a\", \"b c\"], false)",
        Command::ImportKeys(vec![String::from("a"), String::from("b c")], false).to_string()
    );
    assert_eq!(
        "Scroll(Up(12), false)",
        Command::Scroll(ScrollDirection::Up(12), false).to_string()
    );
    assert_eq!(
        "Scroll(Top, true)",
        Command::Scroll(ScrollDirection::Top, true).to_string()
    );
    assert_eq!("Get(\"armor\")", Command::Get(String::from("armor")).to_string());
    assert_eq!("Search(None)", Command::Search(None).to_string());
    assert_eq!(
        "Search(Some(\"q\"))",
        Command::Search(Some(String::from("q"))).to_string()
    );
    assert_eq!(
        "enable armored output",
        Command::SetOption(String::from("armor"), String::from("true")).to_string()
    );
    assert_eq!(
        "set as the signing key",
        Command::SetOption(String::from("signer"), String::from("0x1")).to_string()
    );
    assert_eq!("copy key id", Command::Copy(Selection::KeyId).to_string());
    assert_eq!(
        "copy table row (2)",
        Command::Copy(Selection::Row2).to_string()
    );
    assert_eq!(
        "list secret keys",
        Command::ListKeys(KeyType::Secret).to_string()
    );
    assert_eq!(
        "send key to the keyserver",
        Command::Confirm(Box::new(Command::Confirm(Box::new(Command::SendKey(
            String::from("x")
        )))))
        .to_string()
    );
    let command = Command::ExportKeys(KeyType::Public, vec![String::from("a")], true);
    assert_eq!(command, command.clone());
    assert_eq!(command.to_string(), command.duplicate().to_string());
    assert!(!command.to_string().is_empty());
}
