//! The key-binding resolver: which command a key chord means.
//!
//! A chord is looked up in the custom bindings first, in the order in
//! which they were declared; the first binding that lists the chord gives
//! its command. A chord that no custom binding lists is looked up in the
//! built-in table, many of whose entries depend on the mode and on a few
//! flags of the application. A chord that nothing maps does nothing.
//!
//! While the prompt takes input, keys go to the prompt instead.

use crate::app::command::{command_of_text, strip_sigil, Command, CommandView};
use crate::app::launcher::{App, AppView, TableView};
use crate::app::mode::{mode_of, Mode};
use crate::app::output::OutputType;
use crate::app::prompt::{Prompt, PromptView};
use crate::app::selection::Selection;
use crate::app::style::Style;
use crate::app::tab::Tab;
use crate::config::{binding_views, CustomKeyBinding, CustomKeyBindingView};
use crate::gpg::key::{copy_keys, KeyType};
use crate::term::key::{is_ascii, KeyCode, KeyEvent, KeyModifiers};
use crate::text::{chars_of, concat, copy_of, lowercase, str_eq, string_of_range, views};
use crate::widget::row::ScrollDirection;
use vstd::prelude::*;

verus! {

/// What the built-in table reads of the application besides the mode.
#[derive(Debug)]
pub struct InputContext {
    /// Whether the options menu is shown.
    pub show_options: bool,
    /// The command that waits to be confirmed, if any.
    pub pending_command: Option<Command>,
    /// The id of the selected key, if a key is selected.
    pub selected_key: Option<String>,
    /// The current tab.
    pub tab: Tab,
    /// The bottom margin of the keys table.
    pub table_margin: u16,
    /// The style of the application.
    pub style: Style,
    /// Whether exported keys are ASCII armored.
    pub armor: bool,
    /// The selection that the application was started to make, if any.
    pub select: Option<Selection>,
    /// The selected entry of the options menu, if any.
    pub selected_option: Option<Command>,
}

/// What an input context says.
pub struct InputContextView {
    pub show_options: bool,
    pub pending_command: Option<CommandView>,
    pub selected_key: Option<Seq<char>>,
    pub tab: Tab,
    pub table_margin: u16,
    pub style: Style,
    pub armor: bool,
    pub select: Option<Selection>,
    pub selected_option: Option<CommandView>,
}

impl View for InputContext {
    type V = InputContextView;

    open spec fn view(&self) -> InputContextView {
        InputContextView {
            show_options: self.show_options,
            pending_command: match self.pending_command {
                Some(command) => Some(command@),
                None => None,
            },
            selected_key: match self.selected_key {
                Some(id) => Some(id@),
                None => None,
            },
            tab: self.tab,
            table_margin: self.table_margin,
            style: self.style,
            armor: self.armor,
            select: self.select,
            selected_option: match self.selected_option {
                Some(command) => Some(command@),
                None => None,
            },
        }
    }
}

/// A command and whether the prompt is to be cleared with it.
#[derive(Debug)]
pub struct Resolution {
    /// The command that the chord means.
    pub command: Command,
    /// Whether the question in the prompt is dismissed.
    pub clear_prompt: bool,
}

/// What a resolution says.
pub struct ResolutionView {
    pub command: CommandView,
    pub clear_prompt: bool,
}

impl View for Resolution {
    type V = ResolutionView;

    open spec fn view(&self) -> ResolutionView {
        ResolutionView { command: self.command@, clear_prompt: self.clear_prompt }
    }
}

/// Whether a key is the character `lower` or `upper`.
pub open spec fn is_letter(code: KeyCode, lower: char, upper: char) -> bool {
    code == KeyCode::Char(lower) || code == KeyCode::Char(upper)
}

/// The kind of key that the current tab shows; public keys on the help
/// tab.
pub open spec fn tab_key_type(tab: Tab) -> KeyType {
    match tab {
        Tab::Keys(key_type) => key_type,
        Tab::Help => KeyType::Public,
    }
}

/// The message of a command that needs a selected key where there is none.
pub open spec fn invalid_selection() -> CommandView {
    CommandView::ShowOutput(OutputType::Failure, "invalid selection"@)
}

/// A command that only gives a command and leaves the prompt alone.
pub open spec fn only(command: CommandView) -> ResolutionView {
    ResolutionView { command, clear_prompt: false }
}

/// A command that sets the option `option` to `value`.
pub open spec fn set_option(option: Seq<char>, value: Seq<char>) -> ResolutionView {
    only(CommandView::SetOption(option, value))
}

/// The built-in table: the command that a chord means in a mode and a
/// context when no custom binding lists it.
pub open spec fn builtin_resolution(event: KeyEvent, mode: Mode, context: InputContextView)
    -> ResolutionView {
    let code = event.code;
    let control = event.modifiers == KeyModifiers::spec_control();
    let alt = event.modifiers == KeyModifiers::spec_alt();
    if code == KeyCode::Char('?') {
        only(CommandView::ShowHelp)
    } else if is_letter(code, 'q', 'Q') {
        only(CommandView::Quit)
    } else if code == KeyCode::Esc {
        if mode != Mode::Normal {
            only(CommandView::SwitchMode(Mode::Normal))
        } else if context.show_options {
            only(CommandView::NoOp)
        } else if context.pending_command is Some {
            ResolutionView { command: CommandView::NoOp, clear_prompt: true }
        } else {
            only(CommandView::Quit)
        }
    } else if is_letter(code, 'd', 'D') || code == KeyCode::Backspace {
        if control && code != KeyCode::Backspace {
            only(CommandView::Quit)
        } else {
            match context.selected_key {
                Some(id) => only(
                    CommandView::Confirm(
                        Box::new(CommandView::DeleteKey(tab_key_type(context.tab), id)),
                    ),
                ),
                None => only(invalid_selection()),
            }
        }
    } else if is_letter(code, 'c', 'C') {
        if control {
            only(CommandView::Quit)
        } else {
            only(CommandView::SwitchMode(Mode::Copy))
        }
    } else if is_letter(code, 'v', 'V') {
        if control {
            only(CommandView::Paste)
        } else {
            only(CommandView::SwitchMode(Mode::Visual))
        }
    } else if is_letter(code, 'p', 'P') {
        only(CommandView::Paste)
    } else if is_letter(code, 'r', 'R') || code == KeyCode::F(5) {
        if control {
            only(CommandView::RefreshKeys)
        } else {
            only(CommandView::Refresh)
        }
    } else if code == KeyCode::Up || is_letter(code, 'k', 'K') {
        if control {
            only(CommandView::Scroll(ScrollDirection::Top, false))
        } else {
            only(CommandView::Scroll(ScrollDirection::Up(1), alt))
        }
    } else if code == KeyCode::Right || is_letter(code, 'l', 'L') {
        if alt {
            only(CommandView::Scroll(ScrollDirection::Right(1), true))
        } else {
            only(CommandView::NextTab)
        }
    } else if code == KeyCode::Down || is_letter(code, 'j', 'J') {
        if control {
            only(CommandView::Scroll(ScrollDirection::Bottom, false))
        } else {
            only(CommandView::Scroll(ScrollDirection::Down(1), alt))
        }
    } else if code == KeyCode::Left || is_letter(code, 'h', 'H') {
        if alt {
            only(CommandView::Scroll(ScrollDirection::Left(1), true))
        } else {
            only(CommandView::PreviousTab)
        }
    } else if code == KeyCode::PageUp {
        only(CommandView::Scroll(ScrollDirection::Top, false))
    } else if code == KeyCode::PageDown {
        only(CommandView::Scroll(ScrollDirection::Bottom, false))
    } else if is_letter(code, 't', 'T') {
        only(CommandView::ToggleDetail(true))
    } else if code == KeyCode::Tab {
        only(CommandView::ToggleDetail(false))
    } else if code == KeyCode::Char('`') {
        set_option(
            "margin"@,
            if context.table_margin == 1 {
                "0"@
            } else {
                "1"@
            },
        )
    } else if is_letter(code, 's', 'S') {
        if control {
            only(
                CommandView::ChangeStyle(
                    match context.style {
                        Style::Plain => Style::Colored,
                        Style::Colored => Style::Plain,
                    },
                ),
            )
        } else {
            match context.selected_key {
                Some(id) => only(CommandView::SignKey(id)),
                None => only(invalid_selection()),
            }
        }
    } else if is_letter(code, 'e', 'E') {
        match context.selected_key {
            Some(id) => only(CommandView::EditKey(id)),
            None => only(invalid_selection()),
        }
    } else if is_letter(code, 'x', 'X') {
        if mode == Mode::Copy {
            only(CommandView::Copy(Selection::Key))
        } else {
            match context.selected_key {
                Some(id) => only(
                    CommandView::ExportKeys(tab_key_type(context.tab), seq![id], false),
                ),
                None => only(invalid_selection()),
            }
        }
    } else if is_letter(code, 'g', 'G') {
        only(CommandView::GenerateKey)
    } else if is_letter(code, 'a', 'A') {
        set_option(
            "armor"@,
            if context.armor {
                "false"@
            } else {
                "true"@
            },
        )
    } else if is_letter(code, 'n', 'N') {
        if context.pending_command is Some {
            ResolutionView { command: CommandView::NoOp, clear_prompt: true }
        } else {
            only(CommandView::SwitchMode(Mode::Normal))
        }
    } else if code == KeyCode::Char('1') {
        if mode == Mode::Copy {
            only(CommandView::Copy(Selection::Row1))
        } else {
            set_option("detail"@, "minimum"@)
        }
    } else if code == KeyCode::Char('2') {
        if mode == Mode::Copy {
            only(CommandView::Copy(Selection::Row2))
        } else {
            set_option("detail"@, "standard"@)
        }
    } else if code == KeyCode::Char('3') {
        set_option("detail"@, "full"@)
    } else if is_letter(code, 'i', 'I') {
        if mode == Mode::Copy {
            only(CommandView::Copy(Selection::KeyId))
        } else {
            set_option("prompt"@, ":import "@)
        }
    } else if is_letter(code, 'f', 'F') {
        if mode == Mode::Copy {
            only(CommandView::Copy(Selection::KeyFingerprint))
        } else {
            set_option("prompt"@, ":receive "@)
        }
    } else if is_letter(code, 'u', 'U') {
        if mode == Mode::Copy {
            only(CommandView::Copy(Selection::KeyUserId))
        } else {
            match context.selected_key {
                Some(id) => only(CommandView::Confirm(Box::new(CommandView::SendKey(id)))),
                None => only(invalid_selection()),
            }
        }
    } else if is_letter(code, 'm', 'M') {
        only(CommandView::ToggleTableSize)
    } else if is_letter(code, 'y', 'Y') {
        match context.pending_command {
            Some(command) => only(command),
            None => only(CommandView::NoOp),
        }
    } else if code == KeyCode::Char('o') || code == KeyCode::Char(' ') || code == KeyCode::Enter {
        match context.select {
            Some(selection) => only(CommandView::Copy(selection)),
            None => if context.show_options {
                match context.selected_option {
                    Some(command) => only(command),
                    None => only(CommandView::NoOp),
                }
            } else {
                only(CommandView::ShowOptions)
            },
        }
    } else if code == KeyCode::Char(':') {
        only(CommandView::EnableInput)
    } else if code == KeyCode::Char('/') {
        only(CommandView::Search(None))
    } else {
        only(CommandView::NoOp)
    }
}

/// The index of the first custom binding that lists the chord, if one
/// does.
pub open spec fn first_binding(event: KeyEvent, bindings: Seq<CustomKeyBindingView>) -> Option<
    int,
>
    decreases bindings.len(),
{
    if bindings.len() == 0 {
        None
    } else {
        match first_binding(event, bindings.drop_last()) {
            Some(i) => Some(i),
            None => if bindings.last().keys.contains(event) {
                Some(bindings.len() - 1)
            } else {
                None
            },
        }
    }
}

/// What a chord means: the command of the first custom binding that lists
/// it, else what the built-in table says.
pub open spec fn resolution(
    event: KeyEvent,
    bindings: Seq<CustomKeyBindingView>,
    mode: Mode,
    context: InputContextView,
) -> ResolutionView {
    match first_binding(event, bindings) {
        Some(i) => only(bindings[i].command),
        None => builtin_resolution(event, mode, context),
    }
}

/// The first binding that lists a chord is found at an index of the list,
/// lists the chord, and no binding before it does; where none is found,
/// no binding lists the chord.
pub proof fn lemma_first_binding(event: KeyEvent, bindings: Seq<CustomKeyBindingView>)
    ensures
        match first_binding(event, bindings) {
            Some(i) => 0 <= i < bindings.len() && bindings[i].keys.contains(event) && forall|
                j: int,
            |
                0 <= j < i ==> !(#[trigger] bindings[j]).keys.contains(event),
            None => forall|j: int|
                0 <= j < bindings.len() ==> !(#[trigger] bindings[j]).keys.contains(event),
        },
    decreases bindings.len(),
{
    if bindings.len() > 0 {
        lemma_first_binding(event, bindings.drop_last());
        assert(forall|j: int|
            0 <= j < bindings.len() - 1 ==> bindings.drop_last()[j] == bindings[j]);
    }
}

/// A custom binding takes precedence over the built-in table: a chord
/// that a custom binding lists means the command of the first such
/// binding, whatever the built-in table says of the chord, in every mode
/// and context.
pub proof fn lemma_custom_binding_wins(
    event: KeyEvent,
    bindings: Seq<CustomKeyBindingView>,
    index: int,
    mode: Mode,
    context: InputContextView,
)
    requires
        0 <= index < bindings.len(),
        bindings[index].keys.contains(event),
        forall|j: int| 0 <= j < index ==> !(#[trigger] bindings[j]).keys.contains(event),
    ensures
        resolution(event, bindings, mode, context) == only(bindings[index].command),
{
    lemma_first_binding(event, bindings);
}

/// A chord that nothing maps does nothing: resolution is defined for
/// every chord, and where no custom binding lists the chord it is what
/// the built-in table says.
pub proof fn lemma_unbound_chord_is_builtin(
    event: KeyEvent,
    bindings: Seq<CustomKeyBindingView>,
    mode: Mode,
    context: InputContextView,
)
    requires
        forall|j: int| 0 <= j < bindings.len() ==> !(#[trigger] bindings[j]).keys.contains(event),
    ensures
        resolution(event, bindings, mode, context) == builtin_resolution(event, mode, context),
        event.code == KeyCode::Other ==> resolution(event, bindings, mode, context) == only(
            CommandView::NoOp,
        ),
{
    lemma_first_binding(event, bindings);
}

fn is_letter_key(code: KeyCode, lower: char, upper: char) -> (r: bool)
    ensures
        r == is_letter(code, lower, upper),
{
    code == KeyCode::Char(lower) || code == KeyCode::Char(upper)
}

fn keep(command: Command) -> (r: Resolution)
    ensures
        r@ == only(command@),
{
    Resolution { command, clear_prompt: false }
}

fn set_to(option: &str, value: &str) -> (r: Resolution)
    ensures
        r@ == set_option(option@, value@),
{
    keep(Command::SetOption(copy_of(option), copy_of(value)))
}

fn no_selection() -> (r: Resolution)
    ensures
        r@ == only(invalid_selection()),
{
    keep(Command::ShowOutput(OutputType::Failure, copy_of("invalid selection")))
}

fn key_type_of_tab(tab: Tab) -> (r: KeyType)
    ensures
        r == tab_key_type(tab),
{
    match tab {
        Tab::Keys(key_type) => key_type,
        Tab::Help => KeyType::Public,
    }
}

/// Looks a chord up in the built-in table.
pub fn resolve_builtin(event: KeyEvent, mode: Mode, context: &InputContext) -> (r: Resolution)
    ensures
        r@ == builtin_resolution(event, mode, context@),
{
    let code = event.code;
    let control = event.modifiers == KeyModifiers::control();
    let alt = event.modifiers == KeyModifiers::alt();
    proof {
        reveal_with_fuel(crate::app::command::command_view, 2);
    }
    if code == KeyCode::Char('?') {
        keep(Command::ShowHelp)
    } else if is_letter_key(code, 'q', 'Q') {
        keep(Command::Quit)
    } else if code == KeyCode::Esc {
        if mode != Mode::Normal {
            keep(Command::SwitchMode(Mode::Normal))
        } else if context.show_options {
            keep(Command::NoOp)
        } else if context.pending_command.is_some() {
            Resolution { command: Command::NoOp, clear_prompt: true }
        } else {
            keep(Command::Quit)
        }
    } else if is_letter_key(code, 'd', 'D') || code == KeyCode::Backspace {
        if control && code != KeyCode::Backspace {
            keep(Command::Quit)
        } else {
            match &context.selected_key {
                Some(id) => keep(
                    Command::Confirm(
                        Box::new(Command::DeleteKey(key_type_of_tab(context.tab), id.clone())),
                    ),
                ),
                None => no_selection(),
            }
        }
    } else if is_letter_key(code, 'c', 'C') {
        if control {
            keep(Command::Quit)
        } else {
            keep(Command::SwitchMode(Mode::Copy))
        }
    } else if is_letter_key(code, 'v', 'V') {
        if control {
            keep(Command::Paste)
        } else {
            keep(Command::SwitchMode(Mode::Visual))
        }
    } else if is_letter_key(code, 'p', 'P') {
        keep(Command::Paste)
    } else if is_letter_key(code, 'r', 'R') || code == KeyCode::F(5) {
        if control {
            keep(Command::RefreshKeys)
        } else {
            keep(Command::Refresh)
        }
    } else if code == KeyCode::Up || is_letter_key(code, 'k', 'K') {
        if control {
            keep(Command::Scroll(ScrollDirection::Top, false))
        } else {
            keep(Command::Scroll(ScrollDirection::Up(1), alt))
        }
    } else if code == KeyCode::Right || is_letter_key(code, 'l', 'L') {
        if alt {
            keep(Command::Scroll(ScrollDirection::Right(1), true))
        } else {
            keep(Command::NextTab)
        }
    } else if code == KeyCode::Down || is_letter_key(code, 'j', 'J') {
        if control {
            keep(Command::Scroll(ScrollDirection::Bottom, false))
        } else {
            keep(Command::Scroll(ScrollDirection::Down(1), alt))
        }
    } else if code == KeyCode::Left || is_letter_key(code, 'h', 'H') {
        if alt {
            keep(Command::Scroll(ScrollDirection::Left(1), true))
        } else {
            keep(Command::PreviousTab)
        }
    } else if code == KeyCode::PageUp {
        keep(Command::Scroll(ScrollDirection::Top, false))
    } else if code == KeyCode::PageDown {
        keep(Command::Scroll(ScrollDirection::Bottom, false))
    } else if is_letter_key(code, 't', 'T') {
        keep(Command::ToggleDetail(true))
    } else if code == KeyCode::Tab {
        keep(Command::ToggleDetail(false))
    } else if code == KeyCode::Char('`') {
        set_to(
            "margin",
            if context.table_margin == 1 {
                "0"
            } else {
                "1"
            },
        )
    } else if is_letter_key(code, 's', 'S') {
        if control {
            keep(Command::ChangeStyle(context.style.next()))
        } else {
            match &context.selected_key {
                Some(id) => keep(Command::SignKey(id.clone())),
                None => no_selection(),
            }
        }
    } else if is_letter_key(code, 'e', 'E') {
        match &context.selected_key {
            Some(id) => keep(Command::EditKey(id.clone())),
            None => no_selection(),
        }
    } else if is_letter_key(code, 'x', 'X') {
        if mode == Mode::Copy {
            keep(Command::Copy(Selection::Key))
        } else {
            match &context.selected_key {
                Some(id) => {
                    let mut patterns: Vec<String> = Vec::new();
                    patterns.push(id.clone());
                    assert(views(patterns@) == seq![id@]);
                    keep(Command::ExportKeys(key_type_of_tab(context.tab), patterns, false))
                },
                None => no_selection(),
            }
        }
    } else if is_letter_key(code, 'g', 'G') {
        keep(Command::GenerateKey)
    } else if is_letter_key(code, 'a', 'A') {
        set_to(
            "armor",
            if context.armor {
                "false"
            } else {
                "true"
            },
        )
    } else if is_letter_key(code, 'n', 'N') {
        if context.pending_command.is_some() {
            Resolution { command: Command::NoOp, clear_prompt: true }
        } else {
            keep(Command::SwitchMode(Mode::Normal))
        }
    } else if code == KeyCode::Char('1') {
        if mode == Mode::Copy {
            keep(Command::Copy(Selection::Row1))
        } else {
            set_to("detail", "minimum")
        }
    } else if code == KeyCode::Char('2') {
        if mode == Mode::Copy {
            keep(Command::Copy(Selection::Row2))
        } else {
            set_to("detail", "standard")
        }
    } else if code == KeyCode::Char('3') {
        set_to("detail", "full")
    } else if is_letter_key(code, 'i', 'I') {
        if mode == Mode::Copy {
            keep(Command::Copy(Selection::KeyId))
        } else {
            set_to("prompt", ":import ")
        }
    } else if is_letter_key(code, 'f', 'F') {
        if mode == Mode::Copy {
            keep(Command::Copy(Selection::KeyFingerprint))
        } else {
            set_to("prompt", ":receive ")
        }
    } else if is_letter_key(code, 'u', 'U') {
        if mode == Mode::Copy {
            keep(Command::Copy(Selection::KeyUserId))
        } else {
            match &context.selected_key {
                Some(id) => keep(Command::Confirm(Box::new(Command::SendKey(id.clone())))),
                None => no_selection(),
            }
        }
    } else if is_letter_key(code, 'm', 'M') {
        keep(Command::ToggleTableSize)
    } else if is_letter_key(code, 'y', 'Y') {
        match &context.pending_command {
            Some(command) => keep(command.duplicate()),
            None => keep(Command::NoOp),
        }
    } else if code == KeyCode::Char('o') || code == KeyCode::Char(' ') || code == KeyCode::Enter {
        match context.select {
            Some(selection) => keep(Command::Copy(selection)),
            None => if context.show_options {
                match &context.selected_option {
                    Some(command) => keep(command.duplicate()),
                    None => keep(Command::NoOp),
                }
            } else {
                keep(Command::ShowOptions)
            },
        }
    } else if code == KeyCode::Char(':') {
        keep(Command::EnableInput)
    } else if code == KeyCode::Char('/') {
        keep(Command::Search(None))
    } else {
        keep(Command::NoOp)
    }
}

/// Whether a list of chords holds the chord.
fn lists_chord(keys: &Vec<KeyEvent>, event: KeyEvent) -> (r: bool)
    ensures
        r == keys@.contains(event),
{
    let mut i: usize = 0;
    while i < keys.len()
        invariant
            i <= keys.len(),
            forall|j: int| 0 <= j < i ==> keys@[j] != event,
        decreases keys.len() - i,
    {
        if keys[i] == event {
            return true;
        }
        i += 1;
    }
    false
}

/// Resolves a chord: the custom bindings in the order of their
/// declaration, then the built-in table.
pub fn resolve(
    event: KeyEvent,
    bindings: &Vec<CustomKeyBinding>,
    mode: Mode,
    context: &InputContext,
) -> (r: Resolution)
    ensures
        r@ == resolution(event, binding_views(bindings@), mode, context@),
{
    let mut i: usize = 0;
    while i < bindings.len()
        invariant
            i <= bindings.len(),
            forall|j: int|
                0 <= j < i ==> !(#[trigger] binding_views(bindings@)[j]).keys.contains(event),
        decreases bindings.len() - i,
    {
        if lists_chord(&bindings[i].keys, event) {
            proof {
                lemma_first_binding(event, binding_views(bindings@));
                assert(binding_views(bindings@)[i as int].keys.contains(event));
            }
            return keep(bindings[i].command.duplicate());
        }
        i += 1;
    }
    proof {
        lemma_first_binding(event, binding_views(bindings@));
    }
    resolve_builtin(event, mode, context)
}

/// What a key that went to the prompt asks of the table of keys.
#[derive(Clone, Copy, Debug, PartialEq, Eq, Structural)]
pub enum TableAction {
    /// Nothing.
    Keep,
    /// Show all keys again and select the first row.
    ResetState,
    /// Show all keys again.
    RestoreItems,
}

/// Whether a text is too short to be a command: it is empty or a single
/// character of one byte.
pub open spec fn is_short(text: Seq<char>) -> bool {
    text.len() == 0 || (text.len() == 1 && is_ascii(text[0]))
}

/// What a key does to the prompt while the prompt takes input: the prompt
/// afterwards, the command that was submitted, if any, and what is asked
/// of the table of keys.
pub open spec fn prompt_key(prompt: PromptView, event: KeyEvent, now: u64) -> (
    PromptView,
    CommandView,
    TableAction,
) {
    match event.code {
        KeyCode::Char(c) => {
            let typed = PromptView { text: prompt.text.push(c), ..prompt };
            (
                typed,
                CommandView::NoOp,
                if typed.is_search() {
                    TableAction::ResetState
                } else {
                    TableAction::Keep
                },
            )
        },
        KeyCode::Up => (prompt.after_previous(), CommandView::NoOp, TableAction::Keep),
        KeyCode::Down => (prompt.after_next(), CommandView::NoOp, TableAction::Keep),
        KeyCode::Tab => if prompt.is_command_input() {
            (
                prompt.enabled(crate::app::prompt::SEARCH_PREFIX),
                CommandView::NoOp,
                TableAction::Keep,
            )
        } else if prompt.is_search() {
            (
                prompt.enabled(crate::app::prompt::COMMAND_PREFIX),
                CommandView::NoOp,
                TableAction::RestoreItems,
            )
        } else {
            (prompt, CommandView::NoOp, TableAction::Keep)
        },
        KeyCode::Backspace => {
            let erased = PromptView {
                text: if prompt.text.len() > 0 {
                    prompt.text.drop_last()
                } else {
                    prompt.text
                },
                ..prompt
            };
            (
                erased,
                CommandView::NoOp,
                if erased.is_search() {
                    TableAction::ResetState
                } else {
                    TableAction::Keep
                },
            )
        },
        KeyCode::Esc => (prompt.cleared(), CommandView::NoOp, TableAction::Keep),
        KeyCode::Enter => if prompt.is_search() || is_short(prompt.text) {
            (prompt.cleared(), CommandView::NoOp, TableAction::Keep)
        } else {
            match command_of_text(prompt.text) {
                Some(command) => (
                    PromptView { history: prompt.history.push(prompt.text), ..prompt.cleared() },
                    command,
                    TableAction::Keep,
                ),
                None => (
                    prompt.with_output(
                        OutputType::Failure,
                        "invalid command: "@ + strip_sigil(prompt.text),
                        now,
                    ),
                    CommandView::NoOp,
                    TableAction::Keep,
                ),
            }
        },
        _ => (prompt, CommandView::NoOp, TableAction::Keep),
    }
}

/// The table of keys after what a key asked of it.
pub open spec fn table_after(table: TableView, action: TableAction) -> TableView {
    match action {
        TableAction::Keep => table,
        TableAction::ResetState => table.reset(),
        TableAction::RestoreItems => TableView { items: table.default_items, ..table },
    }
}

/// What a key does to the application, and the command that it means.
/// While the prompt takes input the key goes to the prompt; else it is
/// resolved by the custom bindings and the built-in table.
pub open spec fn key_handled(
    app: AppView,
    event: KeyEvent,
    bindings: Seq<CustomKeyBindingView>,
    now: u64,
) -> (AppView, CommandView) {
    if app.prompt.is_enabled() {
        let (prompt, command, action) = prompt_key(app.prompt, event, now);
        (AppView { prompt, keys_table: table_after(app.keys_table, action), ..app }, command)
    } else {
        let resolved = resolution(event, bindings, app.mode, app.input_context());
        (
            if resolved.clear_prompt {
                AppView { prompt: app.prompt.cleared(), ..app }
            } else {
                app
            },
            resolved.command,
        )
    }
}

/// Hands a key to the prompt.
pub fn handle_prompt_key(prompt: &mut Prompt, event: KeyEvent, now: u64) -> (r: (
    Command,
    TableAction,
))
    ensures
        (final(prompt)@, r.0@, r.1) == prompt_key(old(prompt)@, event, now),
{
    match event.code {
        KeyCode::Char(c) => {
            prompt.text.push(c);
            let action = if prompt.is_search_enabled() {
                TableAction::ResetState
            } else {
                TableAction::Keep
            };
            (Command::NoOp, action)
        },
        KeyCode::Up => {
            prompt.previous();
            (Command::NoOp, TableAction::Keep)
        },
        KeyCode::Down => {
            prompt.next();
            (Command::NoOp, TableAction::Keep)
        },
        KeyCode::Tab => {
            if prompt.is_command_input_enabled() {
                prompt.enable_search();
                (Command::NoOp, TableAction::Keep)
            } else if prompt.is_search_enabled() {
                prompt.enable_command_input();
                (Command::NoOp, TableAction::RestoreItems)
            } else {
                (Command::NoOp, TableAction::Keep)
            }
        },
        KeyCode::Backspace => {
            let chars = chars_of(prompt.text.as_str());
            if chars.len() > 0 {
                prompt.text = string_of_range(&chars, 0, chars.len() - 1);
                assert(chars@.subrange(0, chars.len() - 1) == chars@.drop_last());
            }
            let action = if prompt.is_search_enabled() {
                TableAction::ResetState
            } else {
                TableAction::Keep
            };
            (Command::NoOp, action)
        },
        KeyCode::Esc => {
            prompt.clear();
            (Command::NoOp, TableAction::Keep)
        },
        KeyCode::Enter => {
            let chars = chars_of(prompt.text.as_str());
            let short = chars.len() == 0 || (chars.len() == 1 && (chars[0] as u32) < 0x80);
            if prompt.is_search_enabled() || short {
                prompt.clear();
                (Command::NoOp, TableAction::Keep)
            } else {
                match Command::from_str(prompt.text.as_str()) {
                    Ok(command) => {
                        let ghost before = views(prompt.history@);
                        let entry = prompt.text.clone();
                        proof {
                            crate::text::lemma_views_push(prompt.history@, entry);
                        }
                        prompt.history.push(entry);
                        prompt.clear();
                        (command, TableAction::Keep)
                    },
                    Err(_) => {
                        let rest = if chars[0] == ':' {
                            string_of_range(&chars, 1, chars.len())
                        } else {
                            copy_of(prompt.text.as_str())
                        };
                        assert(chars@.subrange(1, chars.len() as int) == chars@.skip(1));
                        let message = concat("invalid command: ", rest.as_str());
                        prompt.set_output((OutputType::Failure, message), now);
                        (Command::NoOp, TableAction::Keep)
                    },
                }
            }
        },
        _ => (Command::NoOp, TableAction::Keep),
    }
}

/// Returns the corresponding application command for a key event, and
/// hands the key to the prompt while the prompt takes input; `now` is the
/// time in milliseconds.
pub fn handle_key_event(
    key_event: KeyEvent,
    key_bindings: &Vec<CustomKeyBinding>,
    app: &mut App,
    now: u64,
) -> (command: Command)
    ensures
        (final(app)@, command@) == key_handled(
            old(app)@,
            key_event,
            binding_views(key_bindings@),
            now,
        ),
{
    if app.prompt.is_enabled() {
        let (command, action) = handle_prompt_key(&mut app.prompt, key_event, now);
        match action {
            TableAction::Keep => {},
            TableAction::ResetState => {
                app.keys_table.items = copy_keys(&app.keys_table.default_items);
                app.keys_table.state.tui.select(Some(0));
            },
            TableAction::RestoreItems => {
                app.keys_table.items = copy_keys(&app.keys_table.default_items);
            },
        }
        command
    } else {
        let context = app.input_context();
        let resolved = resolve(key_event, key_bindings, app.mode, &context);
        if resolved.clear_prompt {
            app.prompt.clear();
        }
        resolved.command
    }
}

/// What is asked of the terminal's mouse capture before a command runs.
#[derive(Clone, Copy, Debug, PartialEq, Eq, Structural)]
pub enum MouseCapture {
    /// Nothing.
    Keep,
    /// Switch the capture on.
    Enable,
    /// Switch the capture off.
    Disable,
}

/// What is done around a command: the command that runs in the end, what
/// is asked of the mouse capture before, whether the interface is paused
/// while the command runs, and whether the files to import are picked
/// with the file explorer first.
#[derive(Debug)]
pub struct Execution {
    /// The command to run.
    pub command: Command,
    /// What is asked of the mouse capture.
    pub mouse: MouseCapture,
    /// Whether the interface is paused while the command runs.
    pub pause: bool,
    /// Whether the file explorer picks the files of the command.
    pub pick_files: bool,
}

/// What an execution says.
pub struct ExecutionView {
    pub command: CommandView,
    pub mouse: MouseCapture,
    pub pause: bool,
    pub pick_files: bool,
}

impl View for Execution {
    type V = ExecutionView;

    open spec fn view(&self) -> ExecutionView {
        ExecutionView {
            command: self.command@,
            mouse: self.mouse,
            pause: self.pause,
            pick_files: self.pick_files,
        }
    }
}

/// The command that is left of a command while the splash screen is
/// shown and on the help tab: the splash screen lets only the end of the
/// application through, the help tab only what does not need a key.
pub open spec fn admitted(command: CommandView, show_splash: bool, tab: Tab) -> CommandView {
    if show_splash && command != CommandView::Quit {
        CommandView::NoOp
    } else if tab == Tab::Help {
        match command {
            CommandView::ShowOptions => command,
            CommandView::ChangeStyle(_) => command,
            CommandView::Scroll(_, _) => command,
            CommandView::ListKeys(_) => command,
            CommandView::SwitchMode(_) => command,
            CommandView::Paste => command,
            CommandView::EnableInput => command,
            CommandView::NextTab => command,
            CommandView::PreviousTab => command,
            CommandView::Refresh => command,
            CommandView::Quit => command,
            CommandView::NoOp => command,
            CommandView::SetOption(option, _) => if option == "style"@ {
                command
            } else {
                CommandView::NoOp
            },
            _ => CommandView::NoOp,
        }
    } else {
        command
    }
}

/// What is done around a command that was admitted.
pub open spec fn execution_of(command: CommandView, armor: bool) -> ExecutionView {
    let plain = ExecutionView {
        command,
        mouse: MouseCapture::Keep,
        pause: false,
        pick_files: false,
    };
    match command {
        CommandView::SwitchMode(Mode::Normal) => ExecutionView {
            mouse: MouseCapture::Enable,
            ..plain
        },
        CommandView::Refresh => ExecutionView { mouse: MouseCapture::Enable, ..plain },
        CommandView::SwitchMode(Mode::Visual) => ExecutionView {
            mouse: MouseCapture::Disable,
            ..plain
        },
        CommandView::SetOption(option, value) => if option == "mode"@ {
            match mode_of(lowercase(value)) {
                Some(Mode::Normal) => ExecutionView { mouse: MouseCapture::Enable, ..plain },
                Some(Mode::Visual) => ExecutionView { mouse: MouseCapture::Disable, ..plain },
                _ => plain,
            }
        } else if option == "prompt"@ && value == ":import "@ {
            ExecutionView { pause: true, pick_files: true, ..plain }
        } else {
            plain
        },
        CommandView::ExportKeys(_, _, _) => ExecutionView { pause: true, ..plain },
        CommandView::DeleteKey(_, _) => ExecutionView { pause: true, ..plain },
        CommandView::GenerateKey => ExecutionView { pause: true, ..plain },
        CommandView::RefreshKeys => ExecutionView { pause: true, ..plain },
        CommandView::EditKey(_) => ExecutionView { pause: true, ..plain },
        CommandView::SignKey(_) => ExecutionView { pause: true, ..plain },
        CommandView::ImportKeys(_, true) => ExecutionView { pause: true, ..plain },
        CommandView::Copy(Selection::Key) => if armor {
            ExecutionView { pause: true, ..plain }
        } else {
            ExecutionView {
                command: CommandView::ShowOutput(
                    OutputType::Warning,
                    "enable armored output for copying the exported key(s)"@,
                ),
                ..plain
            }
        },
        _ => plain,
    }
}

/// Lets a command through, or not.
pub fn admit_command(command: Command, show_splash: bool, tab: Tab) -> (r: Command)
    ensures
        r@ == admitted(command@, show_splash, tab),
{
    let quit = match &command {
        Command::Quit => true,
        _ => false,
    };
    let help = match tab {
        Tab::Help => true,
        _ => false,
    };
    if show_splash && !quit {
        Command::NoOp
    } else if help {
        match command {
            Command::ShowOptions => Command::ShowOptions,
            Command::ChangeStyle(style) => Command::ChangeStyle(style),
            Command::Scroll(direction, row) => Command::Scroll(direction, row),
            Command::ListKeys(key_type) => Command::ListKeys(key_type),
            Command::SwitchMode(mode) => Command::SwitchMode(mode),
            Command::Paste => Command::Paste,
            Command::EnableInput => Command::EnableInput,
            Command::NextTab => Command::NextTab,
            Command::PreviousTab => Command::PreviousTab,
            Command::Refresh => Command::Refresh,
            Command::Quit => Command::Quit,
            Command::NoOp => Command::NoOp,
            Command::SetOption(option, value) => {
                if str_eq(option.as_str(), "style") {
                    Command::SetOption(option, value)
                } else {
                    Command::NoOp
                }
            },
            _ => Command::NoOp,
        }
    } else {
        command
    }
}

/// Plans what is done around a command that was admitted.
pub fn plan_execution(command: Command, armor: bool) -> (r: Execution)
    ensures
        r@ == execution_of(command@, armor),
{
    let mut mouse = MouseCapture::Keep;
    let mut pause = false;
    let mut pick_files = false;
    let mut warn = false;
    match &command {
        Command::SwitchMode(Mode::Normal) => {
            mouse = MouseCapture::Enable;
        },
        Command::Refresh => {
            mouse = MouseCapture::Enable;
        },
        Command::SwitchMode(Mode::Visual) => {
            mouse = MouseCapture::Disable;
        },
        Command::SetOption(option, value) => {
            if str_eq(option.as_str(), "mode") {
                match Mode::from_str(value.as_str()) {
                    Ok(Mode::Normal) => {
                        mouse = MouseCapture::Enable;
                    },
                    Ok(Mode::Visual) => {
                        mouse = MouseCapture::Disable;
                    },
                    _ => {},
                }
            } else if str_eq(option.as_str(), "prompt") && str_eq(value.as_str(), ":import ") {
                pause = true;
                pick_files = true;
            }
        },
        Command::ExportKeys(_, _, _) => {
            pause = true;
        },
        Command::DeleteKey(_, _) => {
            pause = true;
        },
        Command::GenerateKey => {
            pause = true;
        },
        Command::RefreshKeys => {
            pause = true;
        },
        Command::EditKey(_) => {
            pause = true;
        },
        Command::SignKey(_) => {
            pause = true;
        },
        Command::ImportKeys(_, true) => {
            pause = true;
        },
        Command::Copy(Selection::Key) => {
            if armor {
                pause = true;
            } else {
                warn = true;
            }
        },
        _ => {},
    }
    if warn {
        Execution {
            command: Command::ShowOutput(
                OutputType::Warning,
                copy_of("enable armored output for copying the exported key(s)"),
            ),
            mouse,
            pause,
            pick_files,
        }
    } else {
        Execution { command, mouse, pause, pick_files }
    }
}

/// Plans the execution of an application command.
///
/// It checks the additional conditions for determining
/// if the execution of the given command is applicable, and tells
/// whether the interface is paused or the mouse capture is switched
/// while the command runs.
pub fn handle_command_execution(command: Command, app: &App) -> (r: Execution)
    ensures
        r@ == execution_of(
            admitted(command@, app@.state.show_splash, app@.tab),
            app@.gpgme.armor,
        ),
{
    let command = admit_command(command, app.state.show_splash, app.tab);
    plan_execution(command, app.gpgme.armor)
}

/// The command that imports the files that the file explorer picked.
pub fn import_picked_files(files: Vec<String>) -> (r: Command)
    ensures
        r@ == CommandView::ImportKeys(views(files@), false),
{
    Command::ImportKeys(files, false)
}

} // verus!
