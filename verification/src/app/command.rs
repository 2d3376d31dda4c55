//! The commands of the application and the language they are written in.
//!
//! A command text is an optional `:`, a verb and its arguments, separated
//! by whitespace. The verb is looked up in a fixed table of aliases; each
//! verb then reads its own arguments and ignores what it has no use for.

use crate::app::mode::{mode_of, Mode};
use crate::app::output::{output_type_name, output_type_of, OutputType};
use crate::app::selection::{selection_lowered_text, selection_of, Selection};
use crate::app::style::{style_of, Style};
use crate::error::{ParseError, ParseErrorView};
use crate::gpg::key::{key_type_of, key_type_text, KeyType};
use crate::text::{
    chars_of, concat, copy_of, copy_strings, copy_strings_range, debug_quote, debug_quoted, decimal,
    decimal_string, join_from, joined, lowercase, split_whitespace, str_eq, string_of_range,
    uppercase, views, words,
};
use crate::widget::row::{scroll_direction_of, ScrollDirection};
use vstd::prelude::*;

verus! {

/// Command to run on rendering process.
///
/// It specifies the main operation to perform on the application.
#[derive(Debug, PartialEq)]
pub enum Command {
    /// Confirm the execution of a command.
    Confirm(Box<Command>),
    /// Show help.
    ShowHelp,
    /// Change application style.
    ChangeStyle(Style),
    /// Show application output.
    ShowOutput(OutputType, String),
    /// Show popup for options menu.
    ShowOptions,
    /// List the public/secret keys.
    ListKeys(KeyType),
    /// Import public/secret keys from files or a keyserver.
    ImportKeys(Vec<String>, bool),
    /// Import public/secret keys from clipboard.
    ImportClipboard,
    /// Export the public/secret keys.
    ExportKeys(KeyType, Vec<String>, bool),
    /// Delete the public/secret key.
    DeleteKey(KeyType, String),
    /// Send the key to the default keyserver.
    SendKey(String),
    /// Edit a key.
    EditKey(String),
    /// Sign a key.
    SignKey(String),
    /// Generate a new key pair.
    GenerateKey,
    /// Refresh the keyring.
    RefreshKeys,
    /// Copy a property to clipboard.
    Copy(Selection),
    /// Toggle the detail level.
    ToggleDetail(bool),
    /// Toggle the table size.
    ToggleTableSize,
    /// Scroll the current widget.
    Scroll(ScrollDirection, bool),
    /// Set the value of an option.
    SetOption(String, String),
    /// Get the value of an option.
    Get(String),
    /// Switch the application mode.
    SwitchMode(Mode),
    /// Paste the clipboard contents.
    Paste,
    /// Enable command input.
    EnableInput,
    /// Search for a value.
    Search(Option<String>),
    /// Select the next tab.
    NextTab,
    /// Select the previous tab.
    PreviousTab,
    /// Refresh the application.
    Refresh,
    /// Quit the application.
    Quit,
    /// Do nothing.
    NoOp,
}

/// What a command says: the command with each text as a sequence of
/// characters.
pub enum CommandView {
    Confirm(Box<CommandView>),
    ShowHelp,
    ChangeStyle(Style),
    ShowOutput(OutputType, Seq<char>),
    ShowOptions,
    ListKeys(KeyType),
    ImportKeys(Seq<Seq<char>>, bool),
    ImportClipboard,
    ExportKeys(KeyType, Seq<Seq<char>>, bool),
    DeleteKey(KeyType, Seq<char>),
    SendKey(Seq<char>),
    EditKey(Seq<char>),
    SignKey(Seq<char>),
    GenerateKey,
    RefreshKeys,
    Copy(Selection),
    ToggleDetail(bool),
    ToggleTableSize,
    Scroll(ScrollDirection, bool),
    SetOption(Seq<char>, Seq<char>),
    Get(Seq<char>),
    SwitchMode(Mode),
    Paste,
    EnableInput,
    Search(Option<Seq<char>>),
    NextTab,
    PreviousTab,
    Refresh,
    Quit,
    NoOp,
}

/// What a command says.
pub open spec fn command_view(command: Command) -> CommandView
    decreases command,
{
    match command {
        Command::Confirm(inner) => CommandView::Confirm(Box::new(command_view(*inner))),
        Command::ShowHelp => CommandView::ShowHelp,
        Command::ChangeStyle(style) => CommandView::ChangeStyle(style),
        Command::ShowOutput(output_type, message) => CommandView::ShowOutput(
            output_type,
            message@,
        ),
        Command::ShowOptions => CommandView::ShowOptions,
        Command::ListKeys(key_type) => CommandView::ListKeys(key_type),
        Command::ImportKeys(files, receive) => CommandView::ImportKeys(views(files@), receive),
        Command::ImportClipboard => CommandView::ImportClipboard,
        Command::ExportKeys(key_type, patterns, subkeys) => CommandView::ExportKeys(
            key_type,
            views(patterns@),
            subkeys,
        ),
        Command::DeleteKey(key_type, id) => CommandView::DeleteKey(key_type, id@),
        Command::SendKey(id) => CommandView::SendKey(id@),
        Command::EditKey(id) => CommandView::EditKey(id@),
        Command::SignKey(id) => CommandView::SignKey(id@),
        Command::GenerateKey => CommandView::GenerateKey,
        Command::RefreshKeys => CommandView::RefreshKeys,
        Command::Copy(selection) => CommandView::Copy(selection),
        Command::ToggleDetail(all) => CommandView::ToggleDetail(all),
        Command::ToggleTableSize => CommandView::ToggleTableSize,
        Command::Scroll(direction, row) => CommandView::Scroll(direction, row),
        Command::SetOption(option, value) => CommandView::SetOption(option@, value@),
        Command::Get(option) => CommandView::Get(option@),
        Command::SwitchMode(mode) => CommandView::SwitchMode(mode),
        Command::Paste => CommandView::Paste,
        Command::EnableInput => CommandView::EnableInput,
        Command::Search(query) => CommandView::Search(
            match query {
                Some(text) => Some(text@),
                None => None,
            },
        ),
        Command::NextTab => CommandView::NextTab,
        Command::PreviousTab => CommandView::PreviousTab,
        Command::Refresh => CommandView::Refresh,
        Command::Quit => CommandView::Quit,
        Command::NoOp => CommandView::NoOp,
    }
}

impl View for Command {
    type V = CommandView;

    open spec fn view(&self) -> CommandView {
        command_view(*self)
    }
}

/// The verbs of the command language.
#[derive(Clone, Copy, Debug, PartialEq, Eq, Structural)]
pub enum Verb {
    Confirm,
    Help,
    Style,
    Output,
    Options,
    List,
    Import,
    Receive,
    ImportClipboard,
    Export,
    Delete,
    Send,
    Edit,
    Sign,
    Generate,
    Copy,
    Toggle,
    Scroll,
    SetOption,
    Get,
    Mode,
    Normal,
    Visual,
    Paste,
    Input,
    Search,
    Next,
    Previous,
    Refresh,
    Quit,
    NoOp,
}

/// The table of aliases: the verb that a lower-case word denotes.
pub open spec fn verb_of(word: Seq<char>) -> Option<Verb> {
    if word == "confirm"@ {
        Some(Verb::Confirm)
    } else if word == "help"@ || word == "h"@ {
        Some(Verb::Help)
    } else if word == "style"@ {
        Some(Verb::Style)
    } else if word == "output"@ || word == "out"@ {
        Some(Verb::Output)
    } else if word == "options"@ || word == "opt"@ {
        Some(Verb::Options)
    } else if word == "list"@ || word == "ls"@ {
        Some(Verb::List)
    } else if word == "import"@ {
        Some(Verb::Import)
    } else if word == "receive"@ {
        Some(Verb::Receive)
    } else if word == "import-clipboard"@ {
        Some(Verb::ImportClipboard)
    } else if word == "export"@ || word == "exp"@ {
        Some(Verb::Export)
    } else if word == "delete"@ || word == "del"@ {
        Some(Verb::Delete)
    } else if word == "send"@ {
        Some(Verb::Send)
    } else if word == "edit"@ {
        Some(Verb::Edit)
    } else if word == "sign"@ {
        Some(Verb::Sign)
    } else if word == "generate"@ || word == "gen"@ {
        Some(Verb::Generate)
    } else if word == "copy"@ || word == "c"@ {
        Some(Verb::Copy)
    } else if word == "toggle"@ || word == "t"@ {
        Some(Verb::Toggle)
    } else if word == "scroll"@ {
        Some(Verb::Scroll)
    } else if word == "set"@ || word == "s"@ {
        Some(Verb::SetOption)
    } else if word == "get"@ || word == "g"@ {
        Some(Verb::Get)
    } else if word == "mode"@ || word == "m"@ {
        Some(Verb::Mode)
    } else if word == "normal"@ || word == "n"@ {
        Some(Verb::Normal)
    } else if word == "visual"@ || word == "v"@ {
        Some(Verb::Visual)
    } else if word == "paste"@ || word == "p"@ {
        Some(Verb::Paste)
    } else if word == "input"@ {
        Some(Verb::Input)
    } else if word == "search"@ {
        Some(Verb::Search)
    } else if word == "next"@ {
        Some(Verb::Next)
    } else if word == "previous"@ || word == "prev"@ {
        Some(Verb::Previous)
    } else if word == "refresh"@ || word == "r"@ {
        Some(Verb::Refresh)
    } else if word == "quit"@ || word == "q"@ || word == "q!"@ {
        Some(Verb::Quit)
    } else if word == "none"@ {
        Some(Verb::NoOp)
    } else {
        None
    }
}

/// Looks a lower-case word up in the table of aliases.
pub fn find_verb(word: &str) -> (r: Option<Verb>)
    ensures
        r == verb_of(word@),
{
    if str_eq(word, "confirm") {
        Some(Verb::Confirm)
    } else if str_eq(word, "help") || str_eq(word, "h") {
        Some(Verb::Help)
    } else if str_eq(word, "style") {
        Some(Verb::Style)
    } else if str_eq(word, "output") || str_eq(word, "out") {
        Some(Verb::Output)
    } else if str_eq(word, "options") || str_eq(word, "opt") {
        Some(Verb::Options)
    } else if str_eq(word, "list") || str_eq(word, "ls") {
        Some(Verb::List)
    } else if str_eq(word, "import") {
        Some(Verb::Import)
    } else if str_eq(word, "receive") {
        Some(Verb::Receive)
    } else if str_eq(word, "import-clipboard") {
        Some(Verb::ImportClipboard)
    } else if str_eq(word, "export") || str_eq(word, "exp") {
        Some(Verb::Export)
    } else if str_eq(word, "delete") || str_eq(word, "del") {
        Some(Verb::Delete)
    } else if str_eq(word, "send") {
        Some(Verb::Send)
    } else if str_eq(word, "edit") {
        Some(Verb::Edit)
    } else if str_eq(word, "sign") {
        Some(Verb::Sign)
    } else if str_eq(word, "generate") || str_eq(word, "gen") {
        Some(Verb::Generate)
    } else if str_eq(word, "copy") || str_eq(word, "c") {
        Some(Verb::Copy)
    } else if str_eq(word, "toggle") || str_eq(word, "t") {
        Some(Verb::Toggle)
    } else if str_eq(word, "scroll") {
        Some(Verb::Scroll)
    } else if str_eq(word, "set") || str_eq(word, "s") {
        Some(Verb::SetOption)
    } else if str_eq(word, "get") || str_eq(word, "g") {
        Some(Verb::Get)
    } else if str_eq(word, "mode") || str_eq(word, "m") {
        Some(Verb::Mode)
    } else if str_eq(word, "normal") || str_eq(word, "n") {
        Some(Verb::Normal)
    } else if str_eq(word, "visual") || str_eq(word, "v") {
        Some(Verb::Visual)
    } else if str_eq(word, "paste") || str_eq(word, "p") {
        Some(Verb::Paste)
    } else if str_eq(word, "input") {
        Some(Verb::Input)
    } else if str_eq(word, "search") {
        Some(Verb::Search)
    } else if str_eq(word, "next") {
        Some(Verb::Next)
    } else if str_eq(word, "previous") || str_eq(word, "prev") {
        Some(Verb::Previous)
    } else if str_eq(word, "refresh") || str_eq(word, "r") {
        Some(Verb::Refresh)
    } else if str_eq(word, "quit") || str_eq(word, "q") || str_eq(word, "q!") {
        Some(Verb::Quit)
    } else if str_eq(word, "none") {
        Some(Verb::NoOp)
    } else {
        None
    }
}

/// A text without its leading `:`, if it has one.
pub open spec fn strip_sigil(s: Seq<char>) -> Seq<char> {
    if s.len() > 0 && s[0] == ':' {
        s.skip(1)
    } else {
        s
    }
}

/// The words of a text that was split before its leading `:` was taken
/// away: the first word loses the `:`, and is dropped where nothing else
/// was in it.
pub open spec fn strip_sigil_of_words(args: Seq<Seq<char>>) -> Seq<Seq<char>> {
    if args.len() > 0 && args[0].len() > 0 && args[0][0] == ':' {
        if args[0].len() == 1 {
            args.skip(1)
        } else {
            args.update(0, args[0].skip(1))
        }
    } else {
        args
    }
}

/// The word at `index`, or `default` where there are fewer words.
pub open spec fn word_or(args: Seq<Seq<char>>, index: int, default: Seq<char>) -> Seq<char> {
    if 0 <= index < args.len() {
        args[index]
    } else {
        default
    }
}

/// The key id of a delete request: an id that begins with `0x` has what
/// follows in upper case.
pub open spec fn normalized_key_id(id: Seq<char>) -> Seq<char> {
    if id.len() >= 2 && id[0] == '0' && id[1] == 'x' {
        "0x"@ + uppercase(id.skip(2))
    } else {
        id
    }
}

/// The patterns of an export request: what follows the key type, without
/// a closing `subkey`.
pub open spec fn export_patterns(args: Seq<Seq<char>>) -> Seq<Seq<char>> {
    let patterns = if args.len() > 0 {
        args.skip(1)
    } else {
        args
    };
    if exports_subkeys(args) {
        patterns.drop_last()
    } else {
        patterns
    }
}

/// Whether an export request asks for the subkeys: its last pattern is the
/// word `subkey`.
pub open spec fn exports_subkeys(args: Seq<Seq<char>>) -> bool {
    args.len() > 1 && args.last() == "subkey"@
}

/// The command that a verb makes of its arguments. `args` are the words
/// after the verb in lower case, `raw` the same words as they were
/// written.
pub open spec fn command_of_verb(verb: Verb, args: Seq<Seq<char>>, raw: Seq<Seq<char>>) -> Option<
    CommandView,
>
    decreases args.len(), 1nat,
{
    match verb {
        Verb::Confirm => if args.len() == 0 {
            Some(CommandView::Confirm(Box::new(CommandView::NoOp)))
        } else {
            let inner = strip_sigil_of_words(args);
            match command_of_words(inner, inner) {
                Some(command) => Some(CommandView::Confirm(Box::new(command))),
                None => None,
            }
        },
        Verb::Help => Some(CommandView::ShowHelp),
        Verb::Style => Some(
            CommandView::ChangeStyle(
                match style_of(word_or(args, 0, ""@)) {
                    Some(style) => style,
                    None => Style::Plain,
                },
            ),
        ),
        Verb::Output => if args.len() > 0 {
            Some(CommandView::ShowOutput(output_type_of(args[0]), joined(args.skip(1), " "@)))
        } else {
            None
        },
        Verb::Options => Some(CommandView::ShowOptions),
        Verb::List => match key_type_of(word_or(args, 0, "pub"@)) {
            Some(key_type) => Some(CommandView::ListKeys(key_type)),
            None => None,
        },
        Verb::Import => Some(CommandView::ImportKeys(raw, false)),
        Verb::Receive => Some(CommandView::ImportKeys(raw, true)),
        Verb::ImportClipboard => Some(CommandView::ImportClipboard),
        Verb::Export => match key_type_of(word_or(args, 0, "pub"@)) {
            Some(key_type) => Some(
                CommandView::ExportKeys(key_type, export_patterns(args), exports_subkeys(args)),
            ),
            None => None,
        },
        Verb::Delete => match key_type_of(word_or(args, 0, "pub"@)) {
            Some(key_type) => Some(
                CommandView::DeleteKey(key_type, normalized_key_id(word_or(args, 1, ""@))),
            ),
            None => None,
        },
        Verb::Send => if args.len() > 0 {
            Some(CommandView::SendKey(args[0]))
        } else {
            None
        },
        Verb::Edit => if args.len() > 0 {
            Some(CommandView::EditKey(args[0]))
        } else {
            None
        },
        Verb::Sign => if args.len() > 0 {
            Some(CommandView::SignKey(args[0]))
        } else {
            None
        },
        Verb::Generate => Some(CommandView::GenerateKey),
        Verb::Copy => if args.len() > 0 {
            match selection_of(args[0]) {
                Some(selection) => Some(CommandView::Copy(selection)),
                None => None,
            }
        } else {
            Some(CommandView::SwitchMode(Mode::Copy))
        },
        Verb::Toggle => if args.len() > 0 && args[0] == "detail"@ {
            Some(CommandView::ToggleDetail(args.len() > 1 && args[1] == "all"@))
        } else {
            Some(CommandView::ToggleTableSize)
        },
        Verb::Scroll => {
            let row = args.len() > 0 && args[0] == "row"@;
            let rest = if row {
                args.skip(1)
            } else {
                args
            };
            Some(
                CommandView::Scroll(
                    match scroll_direction_of(rest) {
                        Some(direction) => direction,
                        None => ScrollDirection::Down(1),
                    },
                    row,
                ),
            )
        },
        Verb::SetOption => Some(CommandView::SetOption(word_or(args, 0, ""@), word_or(args, 1, ""@))),
        Verb::Get => Some(CommandView::Get(word_or(args, 0, ""@))),
        Verb::Mode => if args.len() > 0 {
            match mode_of(args[0]) {
                Some(mode) => Some(CommandView::SwitchMode(mode)),
                None => None,
            }
        } else {
            None
        },
        Verb::Normal => Some(CommandView::SwitchMode(Mode::Normal)),
        Verb::Visual => Some(CommandView::SwitchMode(Mode::Visual)),
        Verb::Paste => Some(CommandView::Paste),
        Verb::Input => Some(CommandView::EnableInput),
        Verb::Search => Some(
            CommandView::Search(
                if args.len() > 0 {
                    Some(args[0])
                } else {
                    None
                },
            ),
        ),
        Verb::Next => Some(CommandView::NextTab),
        Verb::Previous => Some(CommandView::PreviousTab),
        Verb::Refresh => if args.len() > 0 && args[0] == "keys"@ {
            Some(CommandView::RefreshKeys)
        } else {
            Some(CommandView::Refresh)
        },
        Verb::Quit => Some(CommandView::Quit),
        Verb::NoOp => Some(CommandView::NoOp),
    }
}

/// The command that the words of a text denote. `lowered` are the words
/// of the text in lower case, `raw` the words as they were written; the
/// first word is the verb.
pub open spec fn command_of_words(lowered: Seq<Seq<char>>, raw: Seq<Seq<char>>) -> Option<
    CommandView,
>
    decreases lowered.len(), 0nat,
{
    if lowered.len() == 0 {
        None
    } else {
        match verb_of(lowered[0]) {
            Some(verb) => command_of_verb(
                verb,
                lowered.skip(1),
                if raw.len() > 0 {
                    raw.skip(1)
                } else {
                    raw
                },
            ),
            None => None,
        }
    }
}

/// The command that a text denotes: the text loses one leading `:`, is
/// put in lower case and split on whitespace.
pub open spec fn command_of_text(s: Seq<char>) -> Option<CommandView> {
    command_of_words(words(lowercase(strip_sigil(s))), words(strip_sigil(s)))
}

/// All aliases of a verb stand for the same command: two words that the
/// table maps to one verb give, with the same arguments, the same result.
pub proof fn lemma_aliases_agree(
    first: Seq<char>,
    second: Seq<char>,
    args: Seq<Seq<char>>,
    raw_first: Seq<char>,
    raw_second: Seq<char>,
    raw_args: Seq<Seq<char>>,
)
    requires
        verb_of(first) is Some,
        verb_of(first) == verb_of(second),
    ensures
        command_of_words(seq![first] + args, seq![raw_first] + raw_args) == command_of_words(
            seq![second] + args,
            seq![raw_second] + raw_args,
        ),
{
    assert((seq![first] + args).skip(1) == args);
    assert((seq![second] + args).skip(1) == args);
    assert((seq![raw_first] + raw_args).skip(1) == raw_args);
    assert((seq![raw_second] + raw_args).skip(1) == raw_args);
}

impl Clone for Command {
    fn clone(&self) -> (r: Self)
        ensures
            r@ == self@,
    {
        self.duplicate()
    }
}

impl Command {
    /// A copy of the command that says the same.
    pub fn duplicate(&self) -> (r: Command)
        ensures
            r@ == self@,
        decreases self,
    {
        match self {
            Command::Confirm(inner) => Command::Confirm(Box::new(inner.duplicate())),
            Command::ShowHelp => Command::ShowHelp,
            Command::ChangeStyle(style) => Command::ChangeStyle(*style),
            Command::ShowOutput(output_type, message) => Command::ShowOutput(
                *output_type,
                message.clone(),
            ),
            Command::ShowOptions => Command::ShowOptions,
            Command::ListKeys(key_type) => Command::ListKeys(*key_type),
            Command::ImportKeys(files, receive) => Command::ImportKeys(
                copy_strings(files),
                *receive,
            ),
            Command::ImportClipboard => Command::ImportClipboard,
            Command::ExportKeys(key_type, patterns, subkeys) => Command::ExportKeys(
                *key_type,
                copy_strings(patterns),
                *subkeys,
            ),
            Command::DeleteKey(key_type, id) => Command::DeleteKey(*key_type, id.clone()),
            Command::SendKey(id) => Command::SendKey(id.clone()),
            Command::EditKey(id) => Command::EditKey(id.clone()),
            Command::SignKey(id) => Command::SignKey(id.clone()),
            Command::GenerateKey => Command::GenerateKey,
            Command::RefreshKeys => Command::RefreshKeys,
            Command::Copy(selection) => Command::Copy(*selection),
            Command::ToggleDetail(all) => Command::ToggleDetail(*all),
            Command::ToggleTableSize => Command::ToggleTableSize,
            Command::Scroll(direction, row) => Command::Scroll(*direction, *row),
            Command::SetOption(option, value) => Command::SetOption(option.clone(), value.clone()),
            Command::Get(option) => Command::Get(option.clone()),
            Command::SwitchMode(mode) => Command::SwitchMode(*mode),
            Command::Paste => Command::Paste,
            Command::EnableInput => Command::EnableInput,
            Command::Search(query) => Command::Search(
                match query {
                    Some(text) => Some(text.clone()),
                    None => None,
                },
            ),
            Command::NextTab => Command::NextTab,
            Command::PreviousTab => Command::PreviousTab,
            Command::Refresh => Command::Refresh,
            Command::Quit => Command::Quit,
            Command::NoOp => Command::NoOp,
        }
    }
}

/// The word at `index`, or `default` where there are fewer words.
fn word_at_or(args: &Vec<String>, index: usize, default: &str) -> (r: String)
    ensures
        r@ == word_or(views(args@), index as int, default@),
{
    if index < args.len() {
        args[index].clone()
    } else {
        copy_of(default)
    }
}

/// Whether the word at `index` exists and is `expected`.
fn word_is(args: &Vec<String>, index: usize, expected: &str) -> (r: bool)
    ensures
        r == (index < args.len() && views(args@)[index as int] == expected@),
{
    index < args.len() && str_eq(args[index].as_str(), expected)
}

/// The words of an inner command, without a leading `:`.
fn strip_sigil_words(args: &Vec<String>) -> (r: Vec<String>)
    ensures
        views(r@) == strip_sigil_of_words(views(args@)),
{
    if args.len() == 0 {
        let r = copy_strings(args);
        return r;
    }
    let first = chars_of(args[0].as_str());
    if first.len() > 0 && first[0] == ':' {
        if first.len() == 1 {
            copy_strings_range(args, 1, args.len())
        } else {
            let mut out: Vec<String> = Vec::new();
            let head = string_of_range(&first, 1, first.len());
            out.push(head);
            let mut i: usize = 1;
            while i < args.len()
                invariant
                    1 <= i <= args.len(),
                    out.len() == i,
                    out@[0]@ == args@[0]@.skip(1),
                    forall|j: int| 1 <= j < i ==> (#[trigger] out@[j])@ == args@[j]@,
                decreases args.len() - i,
            {
                out.push(args[i].clone());
                i += 1;
            }
            assert(views(out@) =~= views(args@).update(0, args@[0]@.skip(1)));
            out
        }
    } else {
        copy_strings(args)
    }
}

/// The key id of a delete request.
fn normalize_key_id(id: String) -> (r: String)
    ensures
        r@ == normalized_key_id(id@),
{
    let chars = chars_of(id.as_str());
    if chars.len() >= 2 && chars[0] == '0' && chars[1] == 'x' {
        let rest = string_of_range(&chars, 2, chars.len());
        let upper = rest.as_str().to_uppercase();
        assert(chars@.subrange(2, chars.len() as int) == chars@.skip(2));
        concat("0x", upper.as_str())
    } else {
        id
    }
}

impl Command {
    /// Makes the command of a verb and its arguments. `args` are the
    /// words after the verb in lower case, `raw` the same words as they
    /// were written.
    pub fn from_verb(verb: Verb, args: &Vec<String>, raw: Vec<String>) -> (r: Option<Command>)
        ensures
            match command_of_verb(verb, views(args@), views(raw@)) {
                Some(view) => r matches Some(command) && command@ == view,
                None => r is None,
            },
        decreases args.len(), 1nat,
    {
        match verb {
            Verb::Confirm => {
                if args.len() == 0 {
                    proof {
                        reveal_with_fuel(command_view, 2);
                    }
                    Some(Command::Confirm(Box::new(Command::NoOp)))
                } else {
                    let inner = strip_sigil_words(args);
                    match Command::from_words(&inner, &inner) {
                        Some(command) => Some(Command::Confirm(Box::new(command))),
                        None => None,
                    }
                }
            },
            Verb::Help => Some(Command::ShowHelp),
            Verb::Style => {
                let name = word_at_or(args, 0, "");
                Some(
                    Command::ChangeStyle(
                        match Style::from_str(name.as_str()) {
                            Ok(style) => style,
                            Err(_) => Style::Plain,
                        },
                    ),
                )
            },
            Verb::Output => {
                if args.len() > 0 {
                    let message = join_from(args, 1, " ");
                    assert(views(args@).subrange(1, args.len() as int) == views(args@).skip(1));
                    Some(
                        Command::ShowOutput(OutputType::from_lowered(args[0].as_str()), message),
                    )
                } else {
                    None
                }
            },
            Verb::Options => Some(Command::ShowOptions),
            Verb::List => {
                let name = word_at_or(args, 0, "pub");
                match KeyType::from_str(name.as_str()) {
                    Ok(key_type) => Some(Command::ListKeys(key_type)),
                    Err(_) => None,
                }
            },
            Verb::Import => Some(Command::ImportKeys(raw, false)),
            Verb::Receive => Some(Command::ImportKeys(raw, true)),
            Verb::ImportClipboard => Some(Command::ImportClipboard),
            Verb::Export => {
                let name = word_at_or(args, 0, "pub");
                match KeyType::from_str(name.as_str()) {
                    Ok(key_type) => {
                        let subkeys = args.len() > 1 && str_eq(
                            args[args.len() - 1].as_str(),
                            "subkey",
                        );
                        let patterns = if subkeys {
                            copy_strings_range(args, 1, args.len() - 1)
                        } else if args.len() > 0 {
                            copy_strings_range(args, 1, args.len())
                        } else {
                            Vec::new()
                        };
                        proof {
                            let all = views(args@);
                            if subkeys {
                                assert(all.skip(1).drop_last() == all.subrange(1, all.len() - 1));
                            } else if all.len() > 0 {
                                assert(all.skip(1) == all.subrange(1, all.len() as int));
                            } else {
                                assert(views(patterns@) == all);
                            }
                        }
                        Some(Command::ExportKeys(key_type, patterns, subkeys))
                    },
                    Err(_) => None,
                }
            },
            Verb::Delete => {
                let name = word_at_or(args, 0, "pub");
                match KeyType::from_str(name.as_str()) {
                    Ok(key_type) => {
                        let id = word_at_or(args, 1, "");
                        Some(Command::DeleteKey(key_type, normalize_key_id(id)))
                    },
                    Err(_) => None,
                }
            },
            Verb::Send => {
                if args.len() > 0 {
                    Some(Command::SendKey(args[0].clone()))
                } else {
                    None
                }
            },
            Verb::Edit => {
                if args.len() > 0 {
                    Some(Command::EditKey(args[0].clone()))
                } else {
                    None
                }
            },
            Verb::Sign => {
                if args.len() > 0 {
                    Some(Command::SignKey(args[0].clone()))
                } else {
                    None
                }
            },
            Verb::Generate => Some(Command::GenerateKey),
            Verb::Copy => {
                if args.len() > 0 {
                    match Selection::from_name(args[0].as_str()) {
                        Some(selection) => Some(Command::Copy(selection)),
                        None => None,
                    }
                } else {
                    Some(Command::SwitchMode(Mode::Copy))
                }
            },
            Verb::Toggle => {
                if word_is(args, 0, "detail") {
                    Some(Command::ToggleDetail(word_is(args, 1, "all")))
                } else {
                    Some(Command::ToggleTableSize)
                }
            },
            Verb::Scroll => {
                let row = word_is(args, 0, "row");
                let rest = if row {
                    copy_strings_range(args, 1, args.len())
                } else {
                    copy_strings(args)
                };
                proof {
                    let all = views(args@);
                    if row {
                        assert(all.skip(1) == all.subrange(1, all.len() as int));
                    }
                }
                Some(
                    Command::Scroll(
                        match ScrollDirection::from_words(&rest) {
                            Some(direction) => direction,
                            None => ScrollDirection::Down(1),
                        },
                        row,
                    ),
                )
            },
            Verb::SetOption => Some(
                Command::SetOption(word_at_or(args, 0, ""), word_at_or(args, 1, "")),
            ),
            Verb::Get => Some(Command::Get(word_at_or(args, 0, ""))),
            Verb::Mode => {
                if args.len() > 0 {
                    match Mode::from_lowered(args[0].as_str()) {
                        Some(mode) => Some(Command::SwitchMode(mode)),
                        None => None,
                    }
                } else {
                    None
                }
            },
            Verb::Normal => Some(Command::SwitchMode(Mode::Normal)),
            Verb::Visual => Some(Command::SwitchMode(Mode::Visual)),
            Verb::Paste => Some(Command::Paste),
            Verb::Input => Some(Command::EnableInput),
            Verb::Search => Some(
                Command::Search(
                    if args.len() > 0 {
                        Some(args[0].clone())
                    } else {
                        None
                    },
                ),
            ),
            Verb::Next => Some(Command::NextTab),
            Verb::Previous => Some(Command::PreviousTab),
            Verb::Refresh => {
                if word_is(args, 0, "keys") {
                    Some(Command::RefreshKeys)
                } else {
                    Some(Command::Refresh)
                }
            },
            Verb::Quit => Some(Command::Quit),
            Verb::NoOp => Some(Command::NoOp),
        }
    }

    /// Reads a command from the words of a text. `lowered` are the words
    /// in lower case, `raw` the words as they were written; the first word
    /// is the verb.
    pub fn from_words(lowered: &Vec<String>, raw: &Vec<String>) -> (r: Option<Command>)
        ensures
            match command_of_words(views(lowered@), views(raw@)) {
                Some(view) => r matches Some(command) && command@ == view,
                None => r is None,
            },
        decreases lowered.len(), 0nat,
    {
        if lowered.len() == 0 {
            return None;
        }
        match find_verb(lowered[0].as_str()) {
            Some(verb) => {
                let args = copy_strings_range(lowered, 1, lowered.len());
                let raw_args = if raw.len() > 0 {
                    copy_strings_range(raw, 1, raw.len())
                } else {
                    Vec::new()
                };
                proof {
                    let all = views(lowered@);
                    assert(all.skip(1) == all.subrange(1, all.len() as int));
                    let all_raw = views(raw@);
                    if all_raw.len() > 0 {
                        assert(all_raw.skip(1) == all_raw.subrange(1, all_raw.len() as int));
                    } else {
                        assert(views(raw_args@) == all_raw);
                    }
                }
                Command::from_verb(verb, &args, raw_args)
            },
            None => None,
        }
    }

    /// Reads a command from a text such as `":export pub test1"`.
    ///
    /// The text loses one leading `:`, is put in lower case and split on
    /// whitespace; the first word is the verb. A text that is no command
    /// is handed back in the error.
    pub fn from_str(s: &str) -> (r: Result<Command, ParseError>)
        ensures
            match command_of_text(s@) {
                Some(view) => r matches Ok(command) && command@ == view,
                None => r matches Err(error) && error@ == ParseErrorView::InvalidCommand(s@),
            },
    {
        let chars = chars_of(s);
        let stripped = if chars.len() > 0 && chars[0] == ':' {
            let rest = string_of_range(&chars, 1, chars.len());
            assert(chars@.subrange(1, chars.len() as int) == chars@.skip(1));
            rest
        } else {
            copy_of(s)
        };
        let lowered_text = stripped.as_str().to_lowercase();
        let lowered = split_whitespace(lowered_text.as_str());
        let raw = split_whitespace(stripped.as_str());
        match Command::from_words(&lowered, &raw) {
            Some(command) => Ok(command),
            None => Err(ParseError::InvalidCommand(copy_of(s))),
        }
    }
}

/// How `true` and `false` are written.
pub open spec fn bool_text(b: bool) -> Seq<char> {
    if b {
        "true"@
    } else {
        "false"@
    }
}

/// A list of texts as it is written in code: each text quoted, with `, `
/// between them, in square brackets.
pub open spec fn debug_list(items: Seq<Seq<char>>) -> Seq<char> {
    "["@ + joined(items.map_values(|item: Seq<char>| debug_quoted(item)), ", "@) + "]"@
}

/// A scroll direction as it is written in code.
pub open spec fn scroll_debug(direction: ScrollDirection) -> Seq<char> {
    match direction {
        ScrollDirection::Up(n) => "Up("@ + decimal(n as nat) + ")"@,
        ScrollDirection::Right(n) => "Right("@ + decimal(n as nat) + ")"@,
        ScrollDirection::Down(n) => "Down("@ + decimal(n as nat) + ")"@,
        ScrollDirection::Left(n) => "Left("@ + decimal(n as nat) + ")"@,
        ScrollDirection::Top => "Top"@,
        ScrollDirection::Bottom => "Bottom"@,
    }
}

/// What setting `option` to `value` does, in words.
pub open spec fn set_description(option: Seq<char>, value: Seq<char>) -> Seq<char> {
    if option == "armor"@ {
        (if value == "true"@ {
            "enable"@
        } else {
            "disable"@
        }) + " armored output"@
    } else if option == "signer"@ {
        "set as the signing key"@
    } else if option == "margin"@ {
        "toggle table margin"@
    } else if option == "prompt"@ {
        if value == ":import "@ {
            "import key(s) from a file"@
        } else if value == ":receive "@ {
            "receive key(s) from keyserver"@
        } else {
            "set prompt text to "@ + value
        }
    } else {
        "set "@ + option + " to "@ + value
    }
}

/// The description of a command: a short text for menus and prompts.
/// Commands that have no wording of their own are described as they are
/// written in code.
pub open spec fn description(command: CommandView) -> Seq<char>
    decreases command,
{
    match command {
        CommandView::NoOp => "close menu"@,
        CommandView::Refresh => "refresh application"@,
        CommandView::RefreshKeys => "refresh the keyring"@,
        CommandView::ShowHelp => "show help"@,
        CommandView::ChangeStyle(style) => match style {
            Style::Plain => "disable colors"@,
            Style::Colored => "enable colors"@,
        },
        CommandView::ListKeys(key_type) => "list "@ + (match key_type {
            KeyType::Public => "public"@,
            KeyType::Secret => "secret"@,
        }) + " keys"@,
        CommandView::ImportClipboard => "import key(s) from clipboard"@,
        CommandView::ExportKeys(key_type, patterns, subkeys) => (if patterns.len() == 0 {
            "export all the keys ("@
        } else if subkeys {
            "export the selected subkeys ("@
        } else {
            "export the selected key ("@
        }) + key_type_text(key_type) + ")"@,
        CommandView::DeleteKey(key_type, _) => "delete the selected key ("@ + key_type_text(
            key_type,
        ) + ")"@,
        CommandView::SendKey(_) => "send key to the keyserver"@,
        CommandView::EditKey(_) => "edit the selected key"@,
        CommandView::SignKey(_) => "sign the selected key"@,
        CommandView::GenerateKey => "generate a new key pair"@,
        CommandView::Copy(selection) => "copy "@ + selection_lowered_text(selection),
        CommandView::Paste => "paste from clipboard"@,
        CommandView::ToggleDetail(all) => "toggle detail ("@ + (if all {
            "all"@
        } else {
            "selected"@
        }) + ")"@,
        CommandView::ToggleTableSize => "toggle table size"@,
        CommandView::SetOption(option, value) => set_description(option, value),
        CommandView::SwitchMode(mode) => "switch to "@ + (match mode {
            Mode::Normal => "normal"@,
            Mode::Visual => "visual"@,
            Mode::Copy => "copy"@,
        }) + " mode"@,
        CommandView::Quit => "quit application"@,
        CommandView::Confirm(inner) => description(*inner),
        CommandView::ShowOutput(output_type, message) => "ShowOutput("@ + output_type_name(
            output_type,
        ) + ", "@ + debug_quoted(message) + ")"@,
        CommandView::ShowOptions => "ShowOptions"@,
        CommandView::ImportKeys(files, receive) => "ImportKeys("@ + debug_list(files) + ", "@
            + bool_text(receive) + ")"@,
        CommandView::Scroll(direction, row) => "Scroll("@ + scroll_debug(direction) + ", "@
            + bool_text(row) + ")"@,
        CommandView::Get(option) => "Get("@ + debug_quoted(option) + ")"@,
        CommandView::EnableInput => "EnableInput"@,
        CommandView::Search(query) => "Search("@ + (match query {
            Some(text) => "Some("@ + debug_quoted(text) + ")"@,
            None => "None"@,
        }) + ")"@,
        CommandView::NextTab => "NextTab"@,
        CommandView::PreviousTab => "PreviousTab"@,
    }
}

fn bool_str(b: bool) -> (r: &'static str)
    ensures
        r@ == bool_text(b),
{
    if b {
        "true"
    } else {
        "false"
    }
}

fn debug_list_string(items: &Vec<String>) -> (r: String)
    ensures
        r@ == debug_list(views(items@)),
{
    let mut quoted: Vec<String> = Vec::new();
    let mut i: usize = 0;
    while i < items.len()
        invariant
            i <= items.len(),
            quoted.len() == i,
            forall|j: int| 0 <= j < i ==> (#[trigger] quoted@[j])@ == debug_quoted(items@[j]@),
        decreases items.len() - i,
    {
        quoted.push(debug_quote(items[i].as_str()));
        i += 1;
    }
    assert(views(quoted@) =~= views(items@).map_values(|item: Seq<char>| debug_quoted(item)));
    let inner = crate::text::join(&quoted, ", ");
    let mut out = concat("[", inner.as_str());
    out.append("]");
    out
}

fn scroll_debug_string(direction: ScrollDirection) -> (r: String)
    ensures
        r@ == scroll_debug(direction),
{
    let (name, amount): (&str, Option<u16>) = match direction {
        ScrollDirection::Up(n) => ("Up(", Some(n)),
        ScrollDirection::Right(n) => ("Right(", Some(n)),
        ScrollDirection::Down(n) => ("Down(", Some(n)),
        ScrollDirection::Left(n) => ("Left(", Some(n)),
        ScrollDirection::Top => ("Top", None),
        ScrollDirection::Bottom => ("Bottom", None),
    };
    match amount {
        Some(n) => {
            let number = decimal_string(n as u64);
            let mut out = concat(name, number.as_str());
            out.append(")");
            out
        },
        None => copy_of(name),
    }
}

fn set_description_string(option: &str, value: &str) -> (r: String)
    ensures
        r@ == set_description(option@, value@),
{
    if str_eq(option, "armor") {
        let action = if str_eq(value, "true") {
            "enable"
        } else {
            "disable"
        };
        concat(action, " armored output")
    } else if str_eq(option, "signer") {
        copy_of("set as the signing key")
    } else if str_eq(option, "margin") {
        copy_of("toggle table margin")
    } else if str_eq(option, "prompt") {
        if str_eq(value, ":import ") {
            copy_of("import key(s) from a file")
        } else if str_eq(value, ":receive ") {
            copy_of("receive key(s) from keyserver")
        } else {
            concat("set prompt text to ", value)
        }
    } else {
        let mut out = concat("set ", option);
        out.append(" to ");
        out.append(value);
        out
    }
}

/// `open`, `middle` and `close` put together.
fn wrap(open: &str, middle: &str, close: &str) -> (r: String)
    ensures
        r@ == open@ + middle@ + close@,
{
    let mut out = concat(open, middle);
    out.append(close);
    out
}

impl Command {
    /// The description of the command: the same text for the same
    /// command, and never an empty one.
    pub fn to_string(&self) -> (r: String)
        ensures
            r@ == description(self@),
        decreases self,
    {
        match self {
            Command::NoOp => copy_of("close menu"),
            Command::Refresh => copy_of("refresh application"),
            Command::RefreshKeys => copy_of("refresh the keyring"),
            Command::ShowHelp => copy_of("show help"),
            Command::ChangeStyle(style) => match style {
                Style::Plain => copy_of("disable colors"),
                Style::Colored => copy_of("enable colors"),
            },
            Command::ListKeys(key_type) => wrap("list ", key_type.name(), " keys"),
            Command::ImportClipboard => copy_of("import key(s) from clipboard"),
            Command::ExportKeys(key_type, patterns, subkeys) => {
                let open = if patterns.len() == 0 {
                    "export all the keys ("
                } else if *subkeys {
                    "export the selected subkeys ("
                } else {
                    "export the selected key ("
                };
                assert(views(patterns@).len() == patterns.len());
                wrap(open, key_type.short_name(), ")")
            },
            Command::DeleteKey(key_type, _) => wrap(
                "delete the selected key (",
                key_type.short_name(),
                ")",
            ),
            Command::SendKey(_) => copy_of("send key to the keyserver"),
            Command::EditKey(_) => copy_of("edit the selected key"),
            Command::SignKey(_) => copy_of("sign the selected key"),
            Command::GenerateKey => copy_of("generate a new key pair"),
            Command::Copy(selection) => concat("copy ", selection.lowered_text()),
            Command::Paste => copy_of("paste from clipboard"),
            Command::ToggleDetail(all) => wrap(
                "toggle detail (",
                if *all {
                    "all"
                } else {
                    "selected"
                },
                ")",
            ),
            Command::ToggleTableSize => copy_of("toggle table size"),
            Command::SetOption(option, value) => set_description_string(
                option.as_str(),
                value.as_str(),
            ),
            Command::SwitchMode(mode) => wrap("switch to ", mode.name(), " mode"),
            Command::Quit => copy_of("quit application"),
            Command::Confirm(inner) => inner.to_string(),
            Command::ShowOutput(output_type, message) => {
                let quoted = debug_quote(message.as_str());
                let mut out = wrap("ShowOutput(", output_type.name(), ", ");
                out.append(quoted.as_str());
                out.append(")");
                out
            },
            Command::ShowOptions => copy_of("ShowOptions"),
            Command::ImportKeys(files, receive) => {
                let list = debug_list_string(files);
                let mut out = wrap("ImportKeys(", list.as_str(), ", ");
                out.append(bool_str(*receive));
                out.append(")");
                out
            },
            Command::Scroll(direction, row) => {
                let inner = scroll_debug_string(*direction);
                let mut out = wrap("Scroll(", inner.as_str(), ", ");
                out.append(bool_str(*row));
                out.append(")");
                out
            },
            Command::Get(option) => {
                let quoted = debug_quote(option.as_str());
                wrap("Get(", quoted.as_str(), ")")
            },
            Command::EnableInput => copy_of("EnableInput"),
            Command::Search(query) => {
                let inner = match query {
                    Some(text) => {
                        let quoted = debug_quote(text.as_str());
                        wrap("Some(", quoted.as_str(), ")")
                    },
                    None => copy_of("None"),
                };
                wrap("Search(", inner.as_str(), ")")
            },
            Command::NextTab => copy_of("NextTab"),
            Command::PreviousTab => copy_of("PreviousTab"),
        }
    }
}

/// The description of what setting an option does is never empty.
pub proof fn lemma_set_description_not_empty(option: Seq<char>, value: Seq<char>)
    ensures
        set_description(option, value).len() > 0,
{
    reveal_strlit("enable");
    reveal_strlit("disable");
    reveal_strlit("set as the signing key");
    reveal_strlit("toggle table margin");
    reveal_strlit("import key(s) from a file");
    reveal_strlit("receive key(s) from keyserver");
    reveal_strlit("set prompt text to ");
    reveal_strlit("set ");
}

/// Every command has a description, and it is never empty. That it is the
/// same text whenever the command is the same is what it means to be a
/// function of the command.
pub proof fn lemma_description_not_empty(command: CommandView)
    ensures
        description(command).len() > 0,
    decreases command,
{
    reveal_strlit("close menu");
    reveal_strlit("refresh application");
    reveal_strlit("refresh the keyring");
    reveal_strlit("show help");
    reveal_strlit("disable colors");
    reveal_strlit("enable colors");
    reveal_strlit("list ");
    reveal_strlit("import key(s) from clipboard");
    reveal_strlit("export all the keys (");
    reveal_strlit("export the selected subkeys (");
    reveal_strlit("export the selected key (");
    reveal_strlit("delete the selected key (");
    reveal_strlit("send key to the keyserver");
    reveal_strlit("edit the selected key");
    reveal_strlit("sign the selected key");
    reveal_strlit("generate a new key pair");
    reveal_strlit("copy ");
    reveal_strlit("paste from clipboard");
    reveal_strlit("toggle detail (");
    reveal_strlit("toggle table size");
    reveal_strlit("switch to ");
    reveal_strlit("quit application");
    reveal_strlit("ShowOutput(");
    reveal_strlit("ShowOptions");
    reveal_strlit("ImportKeys(");
    reveal_strlit("Scroll(");
    reveal_strlit("Get(");
    reveal_strlit("EnableInput");
    reveal_strlit("Search(");
    reveal_strlit("NextTab");
    reveal_strlit("PreviousTab");
    match command {
        CommandView::Confirm(inner) => {
            lemma_description_not_empty(*inner);
        },
        CommandView::SetOption(option, value) => {
            lemma_set_description_not_empty(option, value);
        },
        _ => {},
    }
}

/// The words of the command language, each with the verb that it
/// denotes: every verb has between one and three words.
pub proof fn lemma_alias_table()
    ensures
        verb_of("confirm"@) == Some(Verb::Confirm),
        verb_of("help"@) == Some(Verb::Help),
        verb_of("h"@) == Some(Verb::Help),
        verb_of("style"@) == Some(Verb::Style),
        verb_of("output"@) == Some(Verb::Output),
        verb_of("out"@) == Some(Verb::Output),
        verb_of("options"@) == Some(Verb::Options),
        verb_of("opt"@) == Some(Verb::Options),
        verb_of("list"@) == Some(Verb::List),
        verb_of("ls"@) == Some(Verb::List),
        verb_of("import"@) == Some(Verb::Import),
        verb_of("receive"@) == Some(Verb::Receive),
        verb_of("import-clipboard"@) == Some(Verb::ImportClipboard),
        verb_of("export"@) == Some(Verb::Export),
        verb_of("exp"@) == Some(Verb::Export),
        verb_of("delete"@) == Some(Verb::Delete),
        verb_of("del"@) == Some(Verb::Delete),
        verb_of("send"@) == Some(Verb::Send),
        verb_of("edit"@) == Some(Verb::Edit),
        verb_of("sign"@) == Some(Verb::Sign),
        verb_of("generate"@) == Some(Verb::Generate),
        verb_of("gen"@) == Some(Verb::Generate),
        verb_of("copy"@) == Some(Verb::Copy),
        verb_of("c"@) == Some(Verb::Copy),
        verb_of("toggle"@) == Some(Verb::Toggle),
        verb_of("t"@) == Some(Verb::Toggle),
        verb_of("scroll"@) == Some(Verb::Scroll),
        verb_of("set"@) == Some(Verb::SetOption),
        verb_of("s"@) == Some(Verb::SetOption),
        verb_of("get"@) == Some(Verb::Get),
        verb_of("g"@) == Some(Verb::Get),
        verb_of("mode"@) == Some(Verb::Mode),
        verb_of("m"@) == Some(Verb::Mode),
        verb_of("normal"@) == Some(Verb::Normal),
        verb_of("n"@) == Some(Verb::Normal),
        verb_of("visual"@) == Some(Verb::Visual),
        verb_of("v"@) == Some(Verb::Visual),
        verb_of("paste"@) == Some(Verb::Paste),
        verb_of("p"@) == Some(Verb::Paste),
        verb_of("input"@) == Some(Verb::Input),
        verb_of("search"@) == Some(Verb::Search),
        verb_of("next"@) == Some(Verb::Next),
        verb_of("previous"@) == Some(Verb::Previous),
        verb_of("prev"@) == Some(Verb::Previous),
        verb_of("refresh"@) == Some(Verb::Refresh),
        verb_of("r"@) == Some(Verb::Refresh),
        verb_of("quit"@) == Some(Verb::Quit),
        verb_of("q"@) == Some(Verb::Quit),
        verb_of("q!"@) == Some(Verb::Quit),
        verb_of("none"@) == Some(Verb::NoOp),
        verb_of(""@) is None,
{
    reveal_strlit("confirm");
    reveal_strlit("help");
    reveal_strlit("h");
    reveal_strlit("style");
    reveal_strlit("output");
    reveal_strlit("out");
    reveal_strlit("options");
    reveal_strlit("opt");
    reveal_strlit("list");
    reveal_strlit("ls");
    reveal_strlit("import");
    reveal_strlit("receive");
    reveal_strlit("import-clipboard");
    reveal_strlit("export");
    reveal_strlit("exp");
    reveal_strlit("delete");
    reveal_strlit("del");
    reveal_strlit("send");
    reveal_strlit("edit");
    reveal_strlit("sign");
    reveal_strlit("generate");
    reveal_strlit("gen");
    reveal_strlit("copy");
    reveal_strlit("c");
    reveal_strlit("toggle");
    reveal_strlit("t");
    reveal_strlit("scroll");
    reveal_strlit("set");
    reveal_strlit("s");
    reveal_strlit("get");
    reveal_strlit("g");
    reveal_strlit("mode");
    reveal_strlit("m");
    reveal_strlit("normal");
    reveal_strlit("n");
    reveal_strlit("visual");
    reveal_strlit("v");
    reveal_strlit("paste");
    reveal_strlit("p");
    reveal_strlit("input");
    reveal_strlit("search");
    reveal_strlit("next");
    reveal_strlit("previous");
    reveal_strlit("prev");
    reveal_strlit("refresh");
    reveal_strlit("r");
    reveal_strlit("quit");
    reveal_strlit("q");
    reveal_strlit("q!");
    reveal_strlit("none");
    reveal_strlit("");
    assert("confirm"@.len() == 7);
    assert("help"@.len() == 4);
    assert("h"@.len() == 1);
    assert("style"@.len() == 5);
    assert("output"@.len() == 6);
    assert("out"@.len() == 3);
    assert("options"@.len() == 7);
    assert("opt"@.len() == 3);
    assert("list"@.len() == 4);
    assert("ls"@.len() == 2);
    assert("import"@.len() == 6);
    assert("receive"@.len() == 7);
    assert("import-clipboard"@.len() == 16);
    assert("export"@.len() == 6);
    assert("exp"@.len() == 3);
    assert("delete"@.len() == 6);
    assert("del"@.len() == 3);
    assert("send"@.len() == 4);
    assert("edit"@.len() == 4);
    assert("sign"@.len() == 4);
    assert("generate"@.len() == 8);
    assert("gen"@.len() == 3);
    assert("copy"@.len() == 4);
    assert("c"@.len() == 1);
    assert("toggle"@.len() == 6);
    assert("t"@.len() == 1);
    assert("scroll"@.len() == 6);
    assert("set"@.len() == 3);
    assert("s"@.len() == 1);
    assert("get"@.len() == 3);
    assert("g"@.len() == 1);
    assert("mode"@.len() == 4);
    assert("m"@.len() == 1);
    assert("normal"@.len() == 6);
    assert("n"@.len() == 1);
    assert("visual"@.len() == 6);
    assert("v"@.len() == 1);
    assert("paste"@.len() == 5);
    assert("p"@.len() == 1);
    assert("input"@.len() == 5);
    assert("search"@.len() == 6);
    assert("next"@.len() == 4);
    assert("previous"@.len() == 8);
    assert("prev"@.len() == 4);
    assert("refresh"@.len() == 7);
    assert("r"@.len() == 1);
    assert("quit"@.len() == 4);
    assert("q"@.len() == 1);
    assert("q!"@.len() == 2);
    assert("none"@.len() == 4);
    assert("options"@[0] != "confirm"@[0]);
    assert("opt"@[1] != "out"@[1]);
    assert("list"@[0] != "help"@[0]);
    assert("import"@[0] != "output"@[0]);
    assert("receive"@[0] != "confirm"@[0]);
    assert("receive"@[0] != "options"@[0]);
    assert("export"@[0] != "output"@[0]);
    assert("export"@[0] != "import"@[0]);
    assert("exp"@[0] != "out"@[0]);
    assert("exp"@[0] != "opt"@[0]);
    assert("delete"@[0] != "output"@[0]);
    assert("delete"@[0] != "import"@[0]);
    assert("delete"@[0] != "export"@[0]);
    assert("del"@[0] != "out"@[0]);
    assert("del"@[0] != "opt"@[0]);
    assert("del"@[0] != "exp"@[0]);
    assert("send"@[0] != "help"@[0]);
    assert("send"@[0] != "list"@[0]);
    assert("edit"@[0] != "help"@[0]);
    assert("edit"@[0] != "list"@[0]);
    assert("edit"@[0] != "send"@[0]);
    assert("sign"@[0] != "help"@[0]);
    assert("sign"@[0] != "list"@[0]);
    assert("sign"@[1] != "send"@[1]);
    assert("sign"@[0] != "edit"@[0]);
    assert("gen"@[0] != "out"@[0]);
    assert("gen"@[0] != "opt"@[0]);
    assert("gen"@[0] != "exp"@[0]);
    assert("gen"@[0] != "del"@[0]);
    assert("copy"@[0] != "help"@[0]);
    assert("copy"@[0] != "list"@[0]);
    assert("copy"@[0] != "send"@[0]);
    assert("copy"@[0] != "edit"@[0]);
    assert("copy"@[0] != "sign"@[0]);
    assert("c"@[0] != "h"@[0]);
    assert("toggle"@[0] != "output"@[0]);
    assert("toggle"@[0] != "import"@[0]);
    assert("toggle"@[0] != "export"@[0]);
    assert("toggle"@[0] != "delete"@[0]);
    assert("t"@[0] != "h"@[0]);
    assert("t"@[0] != "c"@[0]);
    assert("scroll"@[0] != "output"@[0]);
    assert("scroll"@[0] != "import"@[0]);
    assert("scroll"@[0] != "export"@[0]);
    assert("scroll"@[0] != "delete"@[0]);
    assert("scroll"@[0] != "toggle"@[0]);
    assert("set"@[0] != "out"@[0]);
    assert("set"@[0] != "opt"@[0]);
    assert("set"@[0] != "exp"@[0]);
    assert("set"@[0] != "del"@[0]);
    assert("set"@[0] != "gen"@[0]);
    assert("s"@[0] != "h"@[0]);
    assert("s"@[0] != "c"@[0]);
    assert("s"@[0] != "t"@[0]);
    assert("get"@[0] != "out"@[0]);
    assert("get"@[0] != "opt"@[0]);
    assert("get"@[0] != "exp"@[0]);
    assert("get"@[0] != "del"@[0]);
    assert("get"@[2] != "gen"@[2]);
    assert("get"@[0] != "set"@[0]);
    assert("g"@[0] != "h"@[0]);
    assert("g"@[0] != "c"@[0]);
    assert("g"@[0] != "t"@[0]);
    assert("g"@[0] != "s"@[0]);
    assert("mode"@[0] != "help"@[0]);
    assert("mode"@[0] != "list"@[0]);
    assert("mode"@[0] != "send"@[0]);
    assert("mode"@[0] != "edit"@[0]);
    assert("mode"@[0] != "sign"@[0]);
    assert("mode"@[0] != "copy"@[0]);
    assert("m"@[0] != "h"@[0]);
    assert("m"@[0] != "c"@[0]);
    assert("m"@[0] != "t"@[0]);
    assert("m"@[0] != "s"@[0]);
    assert("m"@[0] != "g"@[0]);
    assert("normal"@[0] != "output"@[0]);
    assert("normal"@[0] != "import"@[0]);
    assert("normal"@[0] != "export"@[0]);
    assert("normal"@[0] != "delete"@[0]);
    assert("normal"@[0] != "toggle"@[0]);
    assert("normal"@[0] != "scroll"@[0]);
    assert("n"@[0] != "h"@[0]);
    assert("n"@[0] != "c"@[0]);
    assert("n"@[0] != "t"@[0]);
    assert("n"@[0] != "s"@[0]);
    assert("n"@[0] != "g"@[0]);
    assert("n"@[0] != "m"@[0]);
    assert("visual"@[0] != "output"@[0]);
    assert("visual"@[0] != "import"@[0]);
    assert("visual"@[0] != "export"@[0]);
    assert("visual"@[0] != "delete"@[0]);
    assert("visual"@[0] != "toggle"@[0]);
    assert("visual"@[0] != "scroll"@[0]);
    assert("visual"@[0] != "normal"@[0]);
    assert("v"@[0] != "h"@[0]);
    assert("v"@[0] != "c"@[0]);
    assert("v"@[0] != "t"@[0]);
    assert("v"@[0] != "s"@[0]);
    assert("v"@[0] != "g"@[0]);
    assert("v"@[0] != "m"@[0]);
    assert("v"@[0] != "n"@[0]);
    assert("paste"@[0] != "style"@[0]);
    assert("p"@[0] != "h"@[0]);
    assert("p"@[0] != "c"@[0]);
    assert("p"@[0] != "t"@[0]);
    assert("p"@[0] != "s"@[0]);
    assert("p"@[0] != "g"@[0]);
    assert("p"@[0] != "m"@[0]);
    assert("p"@[0] != "n"@[0]);
    assert("p"@[0] != "v"@[0]);
    assert("input"@[0] != "style"@[0]);
    assert("input"@[0] != "paste"@[0]);
    assert("search"@[0] != "output"@[0]);
    assert("search"@[0] != "import"@[0]);
    assert("search"@[0] != "export"@[0]);
    assert("search"@[0] != "delete"@[0]);
    assert("search"@[0] != "toggle"@[0]);
    assert("search"@[1] != "scroll"@[1]);
    assert("search"@[0] != "normal"@[0]);
    assert("search"@[0] != "visual"@[0]);
    assert("next"@[0] != "help"@[0]);
    assert("next"@[0] != "list"@[0]);
    assert("next"@[0] != "send"@[0]);
    assert("next"@[0] != "edit"@[0]);
    assert("next"@[0] != "sign"@[0]);
    assert("next"@[0] != "copy"@[0]);
    assert("next"@[0] != "mode"@[0]);
    assert("previous"@[0] != "generate"@[0]);
    assert("prev"@[0] != "help"@[0]);
    assert("prev"@[0] != "list"@[0]);
    assert("prev"@[0] != "send"@[0]);
    assert("prev"@[0] != "edit"@[0]);
    assert("prev"@[0] != "sign"@[0]);
    assert("prev"@[0] != "copy"@[0]);
    assert("prev"@[0] != "mode"@[0]);
    assert("prev"@[0] != "next"@[0]);
    assert("refresh"@[0] != "confirm"@[0]);
    assert("refresh"@[0] != "options"@[0]);
    assert("refresh"@[2] != "receive"@[2]);
    assert("r"@[0] != "h"@[0]);
    assert("r"@[0] != "c"@[0]);
    assert("r"@[0] != "t"@[0]);
    assert("r"@[0] != "s"@[0]);
    assert("r"@[0] != "g"@[0]);
    assert("r"@[0] != "m"@[0]);
    assert("r"@[0] != "n"@[0]);
    assert("r"@[0] != "v"@[0]);
    assert("r"@[0] != "p"@[0]);
    assert("quit"@[0] != "help"@[0]);
    assert("quit"@[0] != "list"@[0]);
    assert("quit"@[0] != "send"@[0]);
    assert("quit"@[0] != "edit"@[0]);
    assert("quit"@[0] != "sign"@[0]);
    assert("quit"@[0] != "copy"@[0]);
    assert("quit"@[0] != "mode"@[0]);
    assert("quit"@[0] != "next"@[0]);
    assert("quit"@[0] != "prev"@[0]);
    assert("q"@[0] != "h"@[0]);
    assert("q"@[0] != "c"@[0]);
    assert("q"@[0] != "t"@[0]);
    assert("q"@[0] != "s"@[0]);
    assert("q"@[0] != "g"@[0]);
    assert("q"@[0] != "m"@[0]);
    assert("q"@[0] != "n"@[0]);
    assert("q"@[0] != "v"@[0]);
    assert("q"@[0] != "p"@[0]);
    assert("q"@[0] != "r"@[0]);
    assert("q!"@[0] != "ls"@[0]);
    assert("none"@[0] != "help"@[0]);
    assert("none"@[0] != "list"@[0]);
    assert("none"@[0] != "send"@[0]);
    assert("none"@[0] != "edit"@[0]);
    assert("none"@[0] != "sign"@[0]);
    assert("none"@[0] != "copy"@[0]);
    assert("none"@[0] != "mode"@[0]);
    assert("none"@[1] != "next"@[1]);
    assert("none"@[0] != "prev"@[0]);
    assert("none"@[0] != "quit"@[0]);
}

} // verus!
