//! The application: its state, and what each command does to it.
//!
//! The application itself does no work outside of its state. A command
//! that needs the key store, the clipboard or another program yields a
//! request; whoever runs the application carries the request out and hands
//! back the response, which may yield a further request.

use crate::app::command::{bool_text, command_view, Command, CommandView};
use crate::app::handler::{InputContext, InputContextView};
use crate::app::keys::{key_bindings, KeyBinding, KEY_BINDING_COUNT};
use crate::app::mode::Mode;
use crate::app::output::OutputType;
use crate::app::prompt::{Prompt, PromptView};
use crate::app::request::{ClipboardUse, Request, RequestView, Response};
use crate::app::selection::Selection;
use crate::app::state::{State, StateView};
use crate::app::style::Style;
use crate::app::tab::Tab;
use crate::app::transition::{
    bool_of, command_group, export_file_name, joined_path, with_detail, with_detail_at,
    with_detail_increased,
};
use crate::gpg::config::{GpgConfig, GpgConfigView};
use crate::gpg::key::{copy_keys, key_views, text_view, GpgKey, GpgKeyView, KeyDetail, KeyType};
use crate::text::{
    chars_of, concat, copy_of, debug_quote, decimal_string, join, lemma_views_push, parse_u16,
    str_eq, views,
};
use crate::widget::list::{ListState, StatefulList};
use crate::widget::row::ScrollDirection;
use crate::widget::style::Color;
use crate::widget::table::{StatefulTable, TableSize, TableState, TuiState};
use vstd::prelude::*;

verus! {

/// Main application.
///
/// It is responsible for running the commands
/// for changing the state of the interface.
pub struct App {
    /// Application state.
    pub state: State,
    /// Application mode.
    pub mode: Mode,
    /// Prompt manager.
    pub prompt: Prompt,
    /// Current tab.
    pub tab: Tab,
    /// Content of the options menu.
    pub options: StatefulList<Command>,
    /// Content of the key bindings list.
    pub key_bindings: StatefulList<KeyBinding<'static>>,
    /// Public keys.
    pub public_keys: Vec<GpgKey>,
    /// Secret keys.
    pub secret_keys: Vec<GpgKey>,
    /// Table of public/secret keys.
    pub keys_table: StatefulTable<GpgKey>,
    /// State of the table of public keys, once it was left.
    pub public_table_state: Option<TableState>,
    /// State of the table of secret keys, once it was left.
    pub secret_table_state: Option<TableState>,
    /// Level of detail to show for keys table.
    pub keys_table_detail: KeyDetail,
    /// Bottom margin value of the keys table.
    pub keys_table_margin: u16,
    /// Whether a clipboard is available.
    pub clipboard: bool,
    /// Settings of the key store.
    pub gpgme: GpgConfig,
}

/// What a table of keys holds.
pub struct TableView {
    pub default_items: Seq<GpgKeyView>,
    pub items: Seq<GpgKeyView>,
    pub state: TableState,
}

/// What the application holds.
pub struct AppView {
    pub state: StateView,
    pub mode: Mode,
    pub prompt: PromptView,
    pub tab: Tab,
    pub options: Seq<CommandView>,
    pub options_state: ListState,
    pub key_bindings_state: ListState,
    pub key_bindings_len: nat,
    pub public_keys: Seq<GpgKeyView>,
    pub secret_keys: Seq<GpgKeyView>,
    pub keys_table: TableView,
    pub public_table_state: Option<TableState>,
    pub secret_table_state: Option<TableState>,
    pub keys_table_detail: KeyDetail,
    pub keys_table_margin: u16,
    pub clipboard: bool,
    pub gpgme: GpgConfigView,
}

/// The views of a sequence of commands.
pub open spec fn command_views(commands: Seq<Command>) -> Seq<CommandView> {
    Seq::new(commands.len(), |i: int| commands[i]@)
}

impl View for App {
    type V = AppView;

    open spec fn view(&self) -> AppView {
        AppView {
            state: self.state@,
            mode: self.mode,
            prompt: self.prompt@,
            tab: self.tab,
            options: command_views(self.options.items@),
            options_state: self.options.state,
            key_bindings_state: self.key_bindings.state,
            key_bindings_len: self.key_bindings.items.len() as nat,
            public_keys: key_views(self.public_keys@),
            secret_keys: key_views(self.secret_keys@),
            keys_table: TableView {
                default_items: key_views(self.keys_table.default_items@),
                items: key_views(self.keys_table.items@),
                state: self.keys_table.state,
            },
            public_table_state: self.public_table_state,
            secret_table_state: self.secret_table_state,
            keys_table_detail: self.keys_table_detail,
            keys_table_margin: self.keys_table_margin,
            clipboard: self.clipboard,
            gpgme: self.gpgme@,
        }
    }
}

impl TableView {
    /// A table that shows all of `keys`, the first row selected.
    pub open spec fn with_items(keys: Seq<GpgKeyView>) -> TableView {
        TableView {
            default_items: keys,
            items: keys,
            state: TableState {
                tui: TuiState { offset: 0, selected: Some(0) },
                scroll: crate::widget::row::ScrollAmount { vertical: 0, horizontal: 0 },
                size: crate::widget::table::TableSize::Normal,
                minimize_threshold: crate::widget::table::DEFAULT_MINIMIZE_THRESHOLD,
            },
        }
    }

    /// The selected key, if the selection lies inside the table.
    pub open spec fn selected(self) -> Option<GpgKeyView> {
        match self.state.tui.selected {
            Some(i) if i < self.items.len() => Some(self.items[i as int]),
            _ => None,
        }
    }

    /// The table with all of its keys shown again and the first row
    /// selected.
    pub open spec fn reset(self) -> TableView {
        TableView {
            items: self.default_items,
            state: TableState {
                tui: TuiState { offset: self.state.tui.offset, selected: Some(0) },
                ..self.state
            },
            ..self
        }
    }
}

impl AppView {
    /// What the built-in key table reads of the application.
    pub open spec fn input_context(self) -> InputContextView {
        InputContextView {
            show_options: self.state.show_options,
            pending_command: self.prompt.command,
            selected_key: match self.keys_table.selected() {
                Some(key) => Some(key.inner.id_text()),
                None => None,
            },
            tab: self.tab,
            table_margin: self.keys_table_margin,
            style: self.state.style,
            armor: self.gpgme.armor,
            select: self.state.select,
            selected_option: match self.options_state.selected {
                Some(i) if i < self.options.len() => Some(self.options[i as int]),
                _ => None,
            },
        }
    }

    /// The application right after its start with the given keys,
    /// flags and settings.
    pub open spec fn initial(
        public_keys: Seq<GpgKeyView>,
        secret_keys: Seq<GpgKeyView>,
        state: StateView,
        gpgme: GpgConfigView,
        clipboard: bool,
        now: u64,
    ) -> AppView {
        AppView {
            state,
            mode: Mode::Normal,
            prompt: if state.select is Some {
                PromptView {
                    text: "-- select --"@,
                    output_type: OutputType::Action,
                    clock: Some(now),
                    command: None,
                    history: Seq::empty(),
                    history_index: 0,
                }
            } else {
                PromptView {
                    text: Seq::empty(),
                    output_type: OutputType::Silent,
                    clock: None,
                    command: None,
                    history: Seq::empty(),
                    history_index: 0,
                }
            },
            tab: Tab::Keys(KeyType::Public),
            options: Seq::empty(),
            options_state: ListState { offset: 0, selected: None },
            key_bindings_state: ListState { offset: 0, selected: None },
            key_bindings_len: KEY_BINDING_COUNT as nat,
            public_keys,
            secret_keys,
            keys_table: TableView::with_items(public_keys),
            public_table_state: None,
            secret_table_state: None,
            keys_table_detail: KeyDetail::Minimum,
            keys_table_margin: 1,
            clipboard,
            gpgme,
        }
    }

    /// The application after the tick of the clock at `now`: a message
    /// that has expired is cleared.
    pub open spec fn ticked(self, now: u64) -> AppView {
        if self.prompt.is_expired(now) {
            AppView { prompt: self.prompt.cleared(), ..self }
        } else {
            self
        }
    }
}

impl App {
    /// Constructs a new instance of `App` from the keys of the key store,
    /// the flags and the settings; `now` is the time in milliseconds.
    pub fn new(
        public_keys: Vec<GpgKey>,
        secret_keys: Vec<GpgKey>,
        state: State,
        gpgme: GpgConfig,
        clipboard: bool,
        now: u64,
    ) -> (app: Self)
        ensures
            app@ == AppView::initial(
                key_views(public_keys@),
                key_views(secret_keys@),
                state@,
                gpgme@,
                clipboard,
                now,
            ),
    {
        let keys_table = Self::table_of(&public_keys);
        let mut prompt = Prompt::default();
        if state.select.is_some() {
            prompt.output_type = OutputType::Action;
            prompt.text = copy_of("-- select --");
            prompt.clock = Some(now);
        }
        let options: StatefulList<Command> = StatefulList::with_items(Vec::new());
        assert(command_views(options.items@) == Seq::<CommandView>::empty());
        Self {
            mode: Mode::Normal,
            prompt,
            state,
            tab: Tab::Keys(KeyType::Public),
            options,
            key_bindings: StatefulList::with_items(key_bindings()),
            public_keys,
            secret_keys,
            keys_table,
            public_table_state: None,
            secret_table_state: None,
            keys_table_detail: KeyDetail::Minimum,
            keys_table_margin: 1,
            clipboard,
            gpgme,
        }
    }

    /// A table that shows copies of `keys`, the first row selected.
    pub fn table_of(keys: &Vec<GpgKey>) -> (table: StatefulTable<GpgKey>)
        ensures
            key_views(table.items@) == key_views(keys@),
            key_views(table.default_items@) == key_views(keys@),
            table.state == TableView::with_items(key_views(keys@)).state,
    {
        StatefulTable {
            default_items: copy_keys(keys),
            items: copy_keys(keys),
            state: TableState {
                tui: TuiState { offset: 0, selected: Some(0) },
                ..TableState::default()
            },
        }
    }

    /// Handles the tick event of the application.
    ///
    /// It is currently used to flush the prompt messages; `now` is the
    /// time in milliseconds.
    pub fn tick(&mut self, now: u64)
        ensures
            final(self)@ == old(self)@.ticked(now),
    {
        if self.prompt.is_expired(now) {
            self.prompt.clear();
        }
    }

    /// What the built-in key table reads of the application.
    pub fn input_context(&self) -> (context: InputContext)
        ensures
            context@ == self@.input_context(),
    {
        assert(key_views(self.keys_table.items@).len() == self.keys_table.items.len());
        assert(command_views(self.options.items@).len() == self.options.items.len());
        InputContext {
            show_options: self.state.show_options,
            pending_command: match &self.prompt.command {
                Some(command) => Some(command.duplicate()),
                None => None,
            },
            selected_key: match self.keys_table.selected() {
                Some(key) => Some(key.get_id()),
                None => None,
            },
            tab: self.tab,
            table_margin: self.keys_table_margin,
            style: self.state.style,
            armor: self.gpgme.armor,
            select: self.state.select,
            selected_option: match self.options.selected() {
                Some(command) => Some(command.duplicate()),
                None => None,
            },
        }
    }
}

/// Reads `true` or `false`.
pub fn parse_bool(text: &str) -> (r: Option<bool>)
    ensures
        r == bool_of(text@),
{
    if str_eq(text, "true") {
        Some(true)
    } else if str_eq(text, "false") {
        Some(false)
    } else {
        None
    }
}

/// How `true` and `false` are written.
pub fn bool_string(b: bool) -> (r: String)
    ensures
        r@ == bool_text(b),
{
    if b {
        copy_of("true")
    } else {
        copy_of("false")
    }
}

/// The path of a file in a directory.
pub fn join_path(directory: &str, file: &str) -> (r: String)
    ensures
        r@ == joined_path(directory@, file@),
{
    let chars = chars_of(directory);
    if chars.len() == 0 {
        copy_of(file)
    } else if chars[chars.len() - 1] == '/' {
        concat(directory, file)
    } else {
        let mut out = concat(directory, "/");
        out.append(file);
        out
    }
}

/// The name of the file to which keys are exported.
pub fn get_export_file_name(key_type: KeyType, patterns: &Vec<String>, armor: bool) -> (r: String)
    ensures
        r@ == export_file_name(key_type, views(patterns@), armor),
{
    let mut out = concat(key_type.short_name(), "_");
    if patterns.len() == 1 {
        out.append(patterns[0].as_str());
    } else {
        out.append("out");
    }
    out.append(".");
    out.append(
        if armor {
            "asc"
        } else {
            "pgp"
        },
    );
    assert(views(patterns@).len() == patterns.len());
    assert(out@ =~= export_file_name(key_type, views(patterns@), armor));
    out
}

/// Sets the level of detail of the key at `index`, if there is one.
fn set_detail_at(keys: &mut Vec<GpgKey>, index: usize, detail: KeyDetail)
    ensures
        key_views(final(keys)@) == with_detail_at(key_views(old(keys)@), index as int, detail),
{
    if index < keys.len() {
        let mut key = keys[index].clone();
        key.detail = detail;
        keys.set(index, key);
        assert(key_views(keys@) =~= with_detail_at(key_views(old(keys)@), index as int, detail));
    } else {
        assert(key_views(keys@) =~= with_detail_at(key_views(old(keys)@), index as int, detail));
    }
}

/// Increases the level of detail of the key at `index`, if there is one.
fn increase_detail_at(keys: &mut Vec<GpgKey>, index: usize)
    ensures
        key_views(final(keys)@) == with_detail_increased(key_views(old(keys)@), index as int),
{
    if index < keys.len() {
        let mut key = keys[index].clone();
        key.detail.increase();
        keys.set(index, key);
        assert(key_views(keys@) =~= with_detail_increased(key_views(old(keys)@), index as int));
    } else {
        assert(key_views(keys@) =~= with_detail_increased(key_views(old(keys)@), index as int));
    }
}

/// Sets the level of detail of all keys.
fn set_detail_all(keys: &mut Vec<GpgKey>, detail: KeyDetail)
    ensures
        key_views(final(keys)@) == with_detail(key_views(old(keys)@), detail),
{
    let mut i: usize = 0;
    while i < keys.len()
        invariant
            i <= keys.len(),
            keys.len() == old(keys).len(),
            forall|j: int|
                0 <= j < i ==> (#[trigger] keys@[j])@ == (GpgKeyView { detail, ..old(keys)@[j]@ }),
            forall|j: int| i <= j < keys.len() ==> (#[trigger] keys@[j])@ == old(keys)@[j]@,
        decreases keys.len() - i,
    {
        let mut key = keys[i].clone();
        key.detail = detail;
        keys.set(i, key);
        i += 1;
    }
    assert(key_views(keys@) =~= with_detail(key_views(old(keys)@), detail));
}

impl App {
    /// Shows a message in the prompt.
    pub fn set_output(&mut self, output_type: OutputType, message: String, now: u64)
        ensures
            final(self)@ == old(self)@.with_output(output_type, message@, now),
    {
        self.prompt.set_output((output_type, message), now);
    }

    /// Shows a message in the prompt; nothing is left to do.
    fn show(&mut self, output_type: OutputType, message: String, now: u64) -> (request: Request)
        ensures
            (final(self)@, request@) == old(self)@.shows(output_type, message@, now),
    {
        self.set_output(output_type, message, now);
        Request::Done
    }

    /// Lists the keys of a kind: the table of the current tab is put
    /// aside, and the table of the kind is shown as it was left.
    pub fn list_keys(&mut self, key_type: KeyType)
        ensures
            final(self)@ == old(self)@.keys_listed(key_type),
    {
        match self.tab {
            Tab::Keys(KeyType::Public) => {
                self.public_table_state = Some(self.keys_table.state);
                self.public_keys = copy_keys(&self.keys_table.default_items);
            },
            Tab::Keys(KeyType::Secret) => {
                self.secret_table_state = Some(self.keys_table.state);
                self.secret_keys = copy_keys(&self.keys_table.default_items);
            },
            Tab::Help => {},
        }
        let (mut table, state) = match key_type {
            KeyType::Public => (Self::table_of(&self.public_keys), self.public_table_state),
            KeyType::Secret => (Self::table_of(&self.secret_keys), self.secret_table_state),
        };
        match state {
            Some(state) => {
                table.state = state;
            },
            None => {},
        }
        self.keys_table = table;
        self.tab = Tab::Keys(key_type);
    }

    /// Opens the help tab.
    pub fn show_help(&mut self)
        ensures
            final(self)@ == old(self)@.help_shown(),
    {
        self.tab = Tab::Help;
        if self.key_bindings.state.selected().is_none() {
            self.key_bindings.state.select(Some(0));
        }
    }

    /// The mode that the options menu offers to switch to.
    fn other_mode(&self) -> (r: Mode)
        ensures
            r == self@.other_mode(),
    {
        match self.mode {
            Mode::Visual => Mode::Normal,
            _ => Mode::Visual,
        }
    }

    /// The entries of the options menu on a tab of keys.
    fn key_options(&self, key_type: KeyType, id: &str) -> (r: Vec<Command>)
        ensures
            command_views(r@) == self@.key_options(key_type, id@),
    {
        proof {
            reveal_with_fuel(command_view, 2);
        }
        let secret = match key_type {
            KeyType::Secret => true,
            KeyType::Public => false,
        };
        let mut one: Vec<String> = Vec::new();
        one.push(copy_of(id));
        assert(views(one@) =~= seq![id@]);
        let mut other: Vec<String> = Vec::new();
        other.push(copy_of(id));
        assert(views(other@) =~= seq![id@]);
        let none: Vec<String> = Vec::new();
        assert(views(none@) =~= Seq::<Seq<char>>::empty());
        let mut out: Vec<Command> = Vec::new();
        out.push(Command::NoOp);
        out.push(Command::ShowHelp);
        out.push(Command::Refresh);
        out.push(Command::RefreshKeys);
        out.push(Command::SetOption(copy_of("prompt"), copy_of(":import ")));
        out.push(Command::ImportClipboard);
        out.push(Command::SetOption(copy_of("prompt"), copy_of(":receive ")));
        out.push(Command::ExportKeys(key_type, one, false));
        if secret {
            out.push(Command::ExportKeys(key_type, other, true));
        }
        out.push(Command::ExportKeys(key_type, none, false));
        out.push(Command::Confirm(Box::new(Command::DeleteKey(key_type, copy_of(id)))));
        out.push(Command::Confirm(Box::new(Command::SendKey(copy_of(id)))));
        out.push(Command::EditKey(copy_of(id)));
        if secret {
            out.push(Command::SetOption(copy_of("signer"), copy_of(id)));
        }
        out.push(Command::SignKey(copy_of(id)));
        out.push(Command::GenerateKey);
        out.push(Command::SetOption(copy_of("armor"), bool_string(!self.gpgme.armor)));
        out.push(Command::Copy(Selection::Key));
        out.push(Command::Copy(Selection::KeyId));
        out.push(Command::Copy(Selection::KeyFingerprint));
        out.push(Command::Copy(Selection::KeyUserId));
        out.push(Command::Copy(Selection::Row1));
        out.push(Command::Copy(Selection::Row2));
        out.push(Command::Paste);
        out.push(Command::ToggleDetail(false));
        out.push(Command::ToggleDetail(true));
        out.push(
            Command::SetOption(
                copy_of("margin"),
                copy_of(
                    if self.keys_table_margin == 1 {
                        "0"
                    } else {
                        "1"
                    },
                ),
            ),
        );
        out.push(Command::ToggleTableSize);
        out.push(Command::SetOption(copy_of("colored"), bool_string(!self.state.style.is_colored())));
        out.push(Command::SwitchMode(self.other_mode()));
        out.push(Command::Quit);
        assert(command_views(out@) =~= self@.key_options(key_type, id@));
        out
    }

    /// The entries of the options menu on the help tab.
    fn help_options(&self) -> (r: Vec<Command>)
        ensures
            command_views(r@) == self@.help_options(),
    {
        let mut out: Vec<Command> = Vec::new();
        out.push(Command::NoOp);
        out.push(Command::ListKeys(KeyType::Public));
        out.push(Command::ListKeys(KeyType::Secret));
        out.push(Command::SwitchMode(self.other_mode()));
        out.push(Command::Refresh);
        out.push(Command::Quit);
        assert(command_views(out@) =~= self@.help_options());
        out
    }

    /// Puts the entries into the options menu.
    fn set_options(&mut self, options: Vec<Command>)
        ensures
            final(self)@ == old(self)@.with_options(command_views(options@)),
    {
        let previous = self.options.state.selected();
        let previous_count = self.options.items.len();
        assert(command_views(self.options.items@).len() == previous_count);
        assert(command_views(options@).len() == options.len());
        let keep = previous_count == 0 || options.len() == previous_count;
        self.options = StatefulList::with_items(options);
        if keep {
            self.options.state.select(
                match previous {
                    Some(i) => Some(i),
                    None => Some(0),
                },
            );
        } else {
            self.options.state.select(Some(0));
        }
    }

    /// Fills the options menu for the current tab, and tells whether the
    /// menu is shown.
    pub fn show_options(&mut self, now: u64) -> (shown: bool)
        ensures
            (final(self)@, shown) == old(self)@.options_shown(now),
    {
        assert(key_views(self.keys_table.items@).len() == self.keys_table.items.len());
        match self.tab {
            Tab::Keys(key_type) => {
                let id = match self.keys_table.selected() {
                    Some(key) => Some(key.get_id()),
                    None => None,
                };
                match id {
                    Some(id) => {
                        let options = self.key_options(key_type, id.as_str());
                        self.set_options(options);
                        true
                    },
                    None => {
                        self.set_output(OutputType::Failure, copy_of("invalid selection"), now);
                        false
                    },
                }
            },
            Tab::Help => {
                let options = self.help_options();
                self.set_options(options);
                true
            },
        }
    }

    /// The arguments with which `gpg` is run for an operation.
    fn gpg_arguments(&self, operation: Vec<String>) -> (r: Vec<String>)
        ensures
            views(r@) == self@.gpg_arguments(views(operation@)),
    {
        let mut out: Vec<String> = Vec::new();
        out.push(copy_of("--homedir"));
        out.push(self.gpgme.home_dir.clone());
        if self.gpgme.armor {
            out.push(copy_of("--armor"));
        }
        match &self.gpgme.default_key {
            Some(key) => {
                out.push(copy_of("--default-key"));
                out.push(key.clone());
            },
            None => {},
        }
        let ghost head = views(out@);
        let mut i: usize = 0;
        while i < operation.len()
            invariant
                i <= operation.len(),
                views(out@) == head + views(operation@).take(i as int),
            decreases operation.len() - i,
        {
            let ghost before = views(out@);
            let word = operation[i].clone();
            proof {
                lemma_views_push(out@, word);
            }
            out.push(word);
            assert(views(operation@).take(i + 1) == views(operation@).take(i as int).push(word@));
            i += 1;
        }
        assert(views(operation@).take(i as int) == views(operation@));
        assert(views(out@) =~= self@.gpg_arguments(views(operation@)));
        out
    }

    /// The request to run `gpg` with one word and the words of `rest`.
    fn gpg_request(&self, first: Vec<String>, rest: &Vec<String>, message: Option<String>) -> (r:
        Request)
        ensures
            r@ == RequestView::RunGpg(
                self@.gpg_arguments(views(first@) + views(rest@)),
                text_view(message),
            ),
    {
        let mut operation = first;
        let ghost head = views(operation@);
        let mut i: usize = 0;
        while i < rest.len()
            invariant
                i <= rest.len(),
                views(operation@) == head + views(rest@).take(i as int),
            decreases rest.len() - i,
        {
            let word = rest[i].clone();
            proof {
                lemma_views_push(operation@, word);
            }
            operation.push(word);
            assert(views(rest@).take(i + 1) == views(rest@).take(i as int).push(word@));
            i += 1;
        }
        assert(views(rest@).take(i as int) == views(rest@));
        Request::RunGpg(self.gpg_arguments(operation), message)
    }

    /// Increases the level of detail of all keys.
    pub fn toggle_detail(&mut self)
        ensures
            final(self)@ == old(self)@.detail_toggled(),
    {
        self.keys_table_detail.increase();
        set_detail_all(&mut self.keys_table.items, self.keys_table_detail);
        set_detail_all(&mut self.keys_table.default_items, self.keys_table_detail);
    }

    /// Increases the level of detail of the selected key.
    pub fn toggle_selected_detail(&mut self)
        ensures
            final(self)@ == old(self)@.selected_detail_toggled(),
    {
        assert(key_views(self.keys_table.items@).len() == self.keys_table.items.len());
        assert(key_views(self.keys_table.default_items@).len()
            == self.keys_table.default_items.len());
        match self.keys_table.state.tui.selected() {
            Some(index) => {
                let all = self.keys_table.items.len() == self.keys_table.default_items.len();
                increase_detail_at(&mut self.keys_table.items, index);
                if all {
                    increase_detail_at(&mut self.keys_table.default_items, index);
                }
            },
            None => {},
        }
    }

    /// Sets the level of detail of the selected key.
    pub fn set_selected_detail(&mut self, detail: KeyDetail)
        ensures
            final(self)@ == old(self)@.selected_detail_set(detail),
    {
        assert(key_views(self.keys_table.items@).len() == self.keys_table.items.len());
        assert(key_views(self.keys_table.default_items@).len()
            == self.keys_table.default_items.len());
        match self.keys_table.state.tui.selected() {
            Some(index) => {
                let all = self.keys_table.items.len() == self.keys_table.default_items.len();
                set_detail_at(&mut self.keys_table.items, index, detail);
                if all {
                    set_detail_at(&mut self.keys_table.default_items, index, detail);
                }
            },
            None => {},
        }
    }

    /// Scrolls the current widget, and tells whether the options menu
    /// stays open.
    pub fn scroll_widget(&mut self, direction: ScrollDirection) -> (shown: bool)
        ensures
            (final(self)@, shown) == old(self)@.widget_scrolled(direction),
    {
        assert(key_views(self.keys_table.items@).len() == self.keys_table.items.len());
        assert(command_views(self.options.items@).len() == self.options.items.len());
        let help = match self.tab {
            Tab::Help => true,
            _ => false,
        };
        match direction {
            ScrollDirection::Down(_) => {
                if self.state.show_options {
                    self.options.next();
                    true
                } else if help {
                    self.key_bindings.next();
                    false
                } else {
                    self.keys_table.next();
                    false
                }
            },
            ScrollDirection::Up(_) => {
                if self.state.show_options {
                    self.options.previous();
                    true
                } else if help {
                    self.key_bindings.previous();
                    false
                } else {
                    self.keys_table.previous();
                    false
                }
            },
            ScrollDirection::Top => {
                if self.state.show_options {
                    self.options.state.select(Some(0));
                    true
                } else if help {
                    self.key_bindings.state.select(Some(0));
                    false
                } else {
                    self.keys_table.state.tui.select(Some(0));
                    false
                }
            },
            ScrollDirection::Bottom => {
                if self.state.show_options {
                    let last = if self.options.items.len() == 0 {
                        0
                    } else {
                        self.options.items.len() - 1
                    };
                    self.options.state.select(Some(last));
                    true
                } else if help {
                    let last = if self.key_bindings.items.len() == 0 {
                        0
                    } else {
                        self.key_bindings.items.len() - 1
                    };
                    self.key_bindings.state.select(Some(last));
                    false
                } else {
                    let last = if self.keys_table.items.len() == 0 {
                        0
                    } else {
                        self.keys_table.items.len() - 1
                    };
                    self.keys_table.state.tui.select(Some(last));
                    false
                }
            },
            _ => false,
        }
    }
}

impl App {
    /// Sets the text of the prompt.
    fn set_prompt(&mut self, value: String) -> (request: Request)
        ensures
            (final(self)@, request@) == old(self)@.prompt_set(value@),
    {
        self.prompt.clear();
        self.prompt.text = value;
        Request::Done
    }

    /// Sets the mode by its name.
    fn set_mode(&mut self, value: &str, now: u64) -> (request: Request)
        ensures
            (final(self)@, request@) == old(self)@.mode_set(value@, now),
    {
        match Mode::from_str(value) {
            Ok(mode) => {
                self.mode = mode;
                self.show(OutputType::Success, concat("mode: ", mode.name()), now)
            },
            Err(_) => self.show(OutputType::Failure, copy_of("invalid mode"), now),
        }
    }

    /// Switches armored output on or off.
    fn set_armor(&mut self, value: &str, now: u64) -> (request: Request)
        ensures
            (final(self)@, request@) == old(self)@.armor_set(value@, now),
    {
        match parse_bool(value) {
            Some(armor) => {
                self.gpgme.armor = armor;
                let text = bool_string(armor);
                self.show(OutputType::Success, concat("armor: ", text.as_str()), now)
            },
            None => self.show(OutputType::Failure, copy_of("usage: set armor <true/false>"), now),
        }
    }

    /// Sets the key for signing.
    fn set_signer(&mut self, value: String, now: u64) -> (request: Request)
        ensures
            (final(self)@, request@) == old(self)@.signer_set(value@, now),
    {
        let message = concat("signer: ", value.as_str());
        self.gpgme.default_key = Some(value);
        self.show(OutputType::Success, message, now)
    }

    /// Sets the width below which the table is minimized.
    fn set_minimize(&mut self, value: &str, now: u64) -> (request: Request)
        ensures
            (final(self)@, request@) == old(self)@.minimize_set(value@, now),
    {
        let threshold: u16 = match parse_u16(value) {
            Some(n) => n,
            None => 0,
        };
        self.keys_table.state.minimize_threshold = threshold;
        let number = decimal_string(threshold as u64);
        self.show(OutputType::Success, concat("minimize threshold: ", number.as_str()), now)
    }

    /// Sets the level of detail of the selected key by its name.
    fn set_detail(&mut self, value: &str, now: u64) -> (request: Request)
        ensures
            (final(self)@, request@) == old(self)@.detail_set(value@, now),
    {
        match KeyDetail::from_name(value) {
            Some(detail) => {
                self.set_selected_detail(detail);
                self.show(OutputType::Success, concat("detail: ", detail.name()), now)
            },
            None => self.show(OutputType::Failure, copy_of("usage: set detail <level>"), now),
        }
    }

    /// Sets the margin of the table.
    fn set_margin(&mut self, value: &str, now: u64) -> (request: Request)
        ensures
            (final(self)@, request@) == old(self)@.margin_set(value@, now),
    {
        let margin: u16 = match parse_u16(value) {
            Some(n) => n,
            None => 0,
        };
        self.keys_table_margin = margin;
        let number = decimal_string(margin as u64);
        self.show(OutputType::Success, concat("table margin: ", number.as_str()), now)
    }

    /// Switches colors on or off.
    fn set_colored(&mut self, value: &str, now: u64) -> (request: Request)
        ensures
            (final(self)@, request@) == old(self)@.colored_set(value@, now),
    {
        match parse_bool(value) {
            Some(colored) => {
                self.state.style = if colored {
                    Style::Colored
                } else {
                    Style::Plain
                };
                let text = bool_string(colored);
                self.show(OutputType::Success, concat("colored: ", text.as_str()), now)
            },
            None => self.show(
                OutputType::Failure,
                copy_of("usage: set colored <true/false>"),
                now,
            ),
        }
    }

    /// Sets the accent color.
    fn set_color(&mut self, value: &str, now: u64) -> (request: Request)
        ensures
            (final(self)@, request@) == old(self)@.color_set(value@, now),
    {
        self.state.color = Color::from(value).get();
        let text = self.state.color.to_text();
        self.show(OutputType::Success, concat("color: ", text.as_str()), now)
    }

    /// Sets an option, and tells what is left to do for it.
    pub fn set_option(&mut self, option: String, value: String, now: u64) -> (request: Request)
        ensures
            (final(self)@, request@) == old(self)@.option_set(option@, value@, now),
    {
        let name = option.as_str();
        let first = chars_of(value.as_str());
        if str_eq(name, "prompt") && first.len() > 0 && (first[0] == ':' || first[0] == '/') {
            self.set_prompt(value)
        } else if str_eq(name, "output") {
            Request::CheckPath(value)
        } else if str_eq(name, "mode") {
            self.set_mode(value.as_str(), now)
        } else if str_eq(name, "armor") {
            self.set_armor(value.as_str(), now)
        } else if str_eq(name, "signer") {
            self.set_signer(value, now)
        } else if str_eq(name, "minimize") {
            self.set_minimize(value.as_str(), now)
        } else if str_eq(name, "detail") {
            self.set_detail(value.as_str(), now)
        } else if str_eq(name, "margin") {
            self.set_margin(value.as_str(), now)
        } else if str_eq(name, "colored") {
            self.set_colored(value.as_str(), now)
        } else if str_eq(name, "color") {
            self.set_color(value.as_str(), now)
        } else if name.unicode_len() > 0 {
            self.show(OutputType::Failure, concat("unknown option: ", name), now)
        } else {
            self.show(OutputType::Failure, copy_of("usage: set <option> <value>"), now)
        }
    }

    /// What the application answers when it is asked for an option.
    pub fn get_option(&self, option: &str) -> (answer: (OutputType, String))
        ensures
            (answer.0, answer.1@) == self@.option_answer(option@),
    {
        assert(key_views(self.keys_table.items@).len() == self.keys_table.items.len());
        if str_eq(option, "output") {
            let quoted = debug_quote(self.gpgme.output_dir.as_str());
            (OutputType::Success, concat("output directory: ", quoted.as_str()))
        } else if str_eq(option, "mode") {
            (OutputType::Success, concat("mode: ", self.mode.name()))
        } else if str_eq(option, "armor") {
            let text = bool_string(self.gpgme.armor);
            (OutputType::Success, concat("armor: ", text.as_str()))
        } else if str_eq(option, "signer") {
            (
                OutputType::Success,
                match &self.gpgme.default_key {
                    Some(key) => concat("signer: ", key.as_str()),
                    None => copy_of("signer key is not specified"),
                },
            )
        } else if str_eq(option, "minimize") {
            let number = decimal_string(self.keys_table.state.minimize_threshold as u64);
            (OutputType::Success, concat("minimize threshold: ", number.as_str()))
        } else if str_eq(option, "detail") {
            match self.keys_table.state.tui.selected() {
                Some(_) => match self.keys_table.selected() {
                    Some(key) => (OutputType::Success, concat("detail: ", key.detail.name())),
                    None => (OutputType::Failure, copy_of("invalid selection")),
                },
                None => (OutputType::Failure, copy_of("unknown selection")),
            }
        } else if str_eq(option, "margin") {
            let number = decimal_string(self.keys_table_margin as u64);
            (OutputType::Success, concat("table margin: ", number.as_str()))
        } else if str_eq(option, "colored") {
            let text = bool_string(self.state.style.is_colored());
            (OutputType::Success, concat("colored: ", text.as_str()))
        } else if str_eq(option, "color") {
            let text = self.state.color.to_text();
            (OutputType::Success, concat("color: ", text.as_str()))
        } else if option.unicode_len() > 0 {
            (OutputType::Failure, concat("unknown option: ", option))
        } else {
            (OutputType::Failure, copy_of("usage: get <option>"))
        }
    }

    /// Hands the content of a selection out: as the result of an
    /// application that was started to select, else to the clipboard.
    pub fn deliver(&mut self, content: String, selection: Selection, now: u64) -> (request:
        Request)
        ensures
            (final(self)@, request@) == old(self)@.delivered(content@, selection, now),
    {
        self.mode = Mode::Normal;
        if self.state.select.is_some() {
            self.state.exit_message = Some(content);
            self.state.running = false;
            self.state.show_options = false;
            Request::Done
        } else if self.clipboard {
            Request::WriteClipboard(content, selection)
        } else {
            self.show(OutputType::Failure, copy_of("clipboard not available"), now)
        }
    }

    /// Copies a selection of the selected key.
    pub fn copy(&mut self, selection: Selection, now: u64) -> (request: Request)
        ensures
            (final(self)@, request@) == old(self)@.copied(selection, now),
    {
        assert(key_views(self.keys_table.items@).len() == self.keys_table.items.len());
        let compact = match self.keys_table.state.size {
            TableSize::Normal => false,
            _ => true,
        };
        let minimized = match self.keys_table.state.size {
            TableSize::Minimized => true,
            _ => false,
        };
        let content: Option<Option<String>> = match self.keys_table.selected() {
            Some(key) => Some(
                match selection {
                    Selection::Row1 => {
                        let lines = key.get_subkey_info(&self.gpgme.default_key, compact);
                        Some(join(&lines, "\n"))
                    },
                    Selection::Row2 => {
                        let lines = key.get_user_info(minimized);
                        Some(join(&lines, "\n"))
                    },
                    Selection::Key => None,
                    Selection::KeyId => Some(key.get_id()),
                    Selection::KeyFingerprint => Some(key.get_fingerprint()),
                    Selection::KeyUserId => Some(key.get_user_id()),
                },
            ),
            None => None,
        };
        match content {
            Some(Some(text)) => self.deliver(text, selection, now),
            Some(None) => {
                let id = match self.keys_table.selected() {
                    Some(key) => key.get_id(),
                    None => String::new(),
                };
                Request::ExportKey(
                    match self.tab {
                        Tab::Keys(key_type) => key_type,
                        Tab::Help => KeyType::Public,
                    },
                    id,
                )
            },
            None => {
                self.mode = Mode::Normal;
                self.show(OutputType::Failure, copy_of("invalid selection"), now)
            },
        }
    }

    /// Takes the keys of the key store anew and puts the application back
    /// to its start, but for the style, the color, the settings of the key
    /// store, the history of the prompt and the current tab.
    pub fn refresh(&mut self, public_keys: Vec<GpgKey>, secret_keys: Vec<GpgKey>)
        ensures
            final(self)@ == old(self)@.refreshed(key_views(public_keys@), key_views(secret_keys@)),
    {
        self.state.refresh();
        self.mode = Mode::Normal;
        self.prompt.clear();
        self.options.state.select(Some(0));
        self.public_table_state = None;
        self.secret_table_state = None;
        self.keys_table_detail = KeyDetail::Minimum;
        self.keys_table_margin = 1;
        match self.tab {
            Tab::Keys(KeyType::Public) => {
                self.keys_table = Self::table_of(&public_keys);
            },
            Tab::Keys(KeyType::Secret) => {
                self.keys_table = Self::table_of(&secret_keys);
            },
            Tab::Help => {},
        }
        self.public_keys = public_keys;
        self.secret_keys = secret_keys;
    }
}

impl App {
    /// The request to run `gpg` for a command that `gpg` carries out.
    pub fn run_gpg(&self, command: &Command) -> (request: Request)
        ensures
            request@ == self@.gpg_request(command@),
    {
        let none: Vec<String> = Vec::new();
        assert(views(none@) =~= Seq::<Seq<char>>::empty());
        let mut first: Vec<String> = Vec::new();
        match command {
            Command::EditKey(key) => {
                first.push(copy_of("--edit-key"));
                first.push(key.clone());
                assert(views(first@) + views(none@) =~= seq!["--edit-key"@, key@]);
                self.gpg_request(first, &none, None)
            },
            Command::SignKey(key) => {
                first.push(copy_of("--sign-key"));
                first.push(key.clone());
                assert(views(first@) + views(none@) =~= seq!["--sign-key"@, key@]);
                self.gpg_request(first, &none, None)
            },
            Command::ImportKeys(keys, _) => {
                first.push(copy_of("--receive-keys"));
                assert(views(first@) =~= seq!["--receive-keys"@]);
                self.gpg_request(first, keys, None)
            },
            Command::ExportKeys(key_type, keys, _) => {
                let name = get_export_file_name(*key_type, keys, self.gpgme.armor);
                let path = join_path(self.gpgme.output_dir.as_str(), name.as_str());
                let message = concat("export: ", path.as_str());
                first.push(copy_of("--output"));
                first.push(path);
                first.push(copy_of("--export-secret-subkeys"));
                assert(views(first@) =~= seq![
                    "--output"@,
                    joined_path(
                        self@.gpgme.output_dir,
                        export_file_name(*key_type, views(keys@), self@.gpgme.armor),
                    ),
                    "--export-secret-subkeys"@,
                ]);
                self.gpg_request(first, keys, Some(message))
            },
            Command::RefreshKeys => {
                first.push(copy_of("--refresh-keys"));
                assert(views(first@) + views(none@) =~= seq!["--refresh-keys"@]);
                self.gpg_request(first, &none, None)
            },
            _ => {
                first.push(copy_of("--full-gen-key"));
                assert(views(first@) + views(none@) =~= seq!["--full-gen-key"@]);
                self.gpg_request(first, &none, None)
            },
        }
    }

    /// Switches the size of the table to the next one.
    fn toggle_table_size(&mut self, now: u64)
        ensures
            final(self)@ == old(self)@.dispatched(CommandView::ToggleTableSize, now).0,
    {
        self.keys_table.state.minimize_threshold = 0;
        self.keys_table.state.size = self.keys_table.state.size.next();
        let name = self.keys_table.state.size.name();
        self.set_output(OutputType::Success, concat("table size: ", name), now);
    }

    /// Starts a search for the given text.
    fn search(&mut self, query: Option<String>)
        ensures
            final(self)@ == old(self)@.dispatched(
                CommandView::Search(text_view(query)),
                0,
            ).0,
    {
        self.prompt.text = match &query {
            Some(text) => concat("/", text.as_str()),
            None => copy_of("/"),
        };
        assert(self.prompt.text@ =~= "/"@ + (match text_view(query) {
            Some(text) => text,
            None => Seq::empty(),
        }));
        self.prompt.enable_search();
        self.keys_table.items = copy_keys(&self.keys_table.default_items);
    }

    /// Opens a tab.
    fn open_tab(&mut self, tab: Tab)
        ensures
            final(self)@ == match tab {
                Tab::Keys(key_type) => old(self)@.keys_listed(key_type),
                Tab::Help => old(self)@.help_shown(),
            },
    {
        match tab {
            Tab::Keys(key_type) => self.list_keys(key_type),
            Tab::Help => self.show_help(),
        }
    }

    /// Carries out a command that opens a view or changes the prompt.
    fn dispatch_view(&mut self, command: Command, now: u64) -> (r: (Request, bool))
        requires
            command_group(command@) == 0,
        ensures
            (final(self)@, r.0@, r.1) == old(self)@.dispatched(command@, now),
    {
        match command {
            Command::ShowHelp => {
                self.show_help();
                (Request::Done, false)
            },
            Command::ChangeStyle(style) => {
                self.state.style = style;
                self.set_output(OutputType::Success, concat("style: ", style.name()), now);
                (Request::Done, false)
            },
            Command::ShowOutput(output_type, message) => {
                self.set_output(output_type, message, now);
                (Request::Done, false)
            },
            Command::ShowOptions => {
                let shown = self.show_options(now);
                (Request::Done, shown)
            },
            Command::ListKeys(key_type) => {
                self.list_keys(key_type);
                (Request::Done, false)
            },
            Command::EnableInput => {
                self.prompt.enable_command_input();
                (Request::Done, false)
            },
            Command::Search(query) => {
                self.search(query);
                (Request::Done, false)
            },
            Command::NextTab => {
                self.open_tab(self.tab.next());
                (Request::Done, false)
            },
            Command::PreviousTab => {
                self.open_tab(self.tab.previous());
                (Request::Done, false)
            },
            Command::Quit => {
                self.state.running = false;
                (Request::Done, false)
            },
            _ => (Request::Done, false),
        }
    }

    /// Carries out a command that needs the key store or the clipboard.
    fn dispatch_store(&mut self, command: Command, now: u64) -> (r: (Request, bool))
        requires
            command_group(command@) == 1,
        ensures
            (final(self)@, r.0@, r.1) == old(self)@.dispatched(command@, now),
    {
        match command {
            Command::ImportKeys(files, receive) => {
                assert(views(files@).len() == files.len());
                if receive {
                    let command = Command::ImportKeys(files, receive);
                    (self.run_gpg(&command), false)
                } else if files.len() == 0 {
                    self.set_output(OutputType::Failure, copy_of("no files given"), now);
                    (Request::Done, false)
                } else {
                    (Request::ImportKeys(files, true), false)
                }
            },
            Command::ImportClipboard => {
                if self.clipboard {
                    (Request::ReadClipboard(ClipboardUse::Import), false)
                } else {
                    self.set_output(OutputType::Failure, copy_of("no files given"), now);
                    (Request::Done, false)
                }
            },
            Command::ExportKeys(key_type, patterns, subkeys) => {
                if subkeys {
                    let command = Command::ExportKeys(key_type, patterns, subkeys);
                    (self.run_gpg(&command), false)
                } else {
                    (Request::ExportKeys(key_type, patterns), false)
                }
            },
            Command::DeleteKey(key_type, id) => (Request::DeleteKey(key_type, id), false),
            Command::SendKey(id) => (Request::SendKey(id), false),
            Command::EditKey(key) => {
                let command = Command::EditKey(key);
                (self.run_gpg(&command), false)
            },
            Command::SignKey(key) => {
                let command = Command::SignKey(key);
                (self.run_gpg(&command), false)
            },
            Command::GenerateKey => (self.run_gpg(&Command::GenerateKey), false),
            Command::RefreshKeys => (self.run_gpg(&Command::RefreshKeys), false),
            Command::Paste => {
                if self.clipboard {
                    (Request::ReadClipboard(ClipboardUse::Paste), false)
                } else {
                    self.set_output(OutputType::Failure, copy_of("clipboard not available"), now);
                    (Request::Done, false)
                }
            },
            _ => (Request::Reload(None), false),
        }
    }

    /// Carries out a command that works on the table of keys.
    fn dispatch_table(&mut self, command: Command, now: u64) -> (r: (Request, bool))
        requires
            command_group(command@) == 2,
        ensures
            (final(self)@, r.0@, r.1) == old(self)@.dispatched(command@, now),
    {
        assert(key_views(self.keys_table.items@).len() == self.keys_table.items.len());
        match command {
            Command::Copy(selection) => (self.copy(selection, now), false),
            Command::ToggleDetail(all) => {
                if all {
                    self.toggle_detail();
                } else {
                    self.toggle_selected_detail();
                }
                (Request::Done, false)
            },
            Command::Scroll(direction, row) => {
                if row {
                    self.keys_table.scroll_row(direction);
                    (Request::Done, false)
                } else {
                    let shown = self.scroll_widget(direction);
                    (Request::Done, shown)
                }
            },
            Command::SwitchMode(mode) => {
                let copy = match mode {
                    Mode::Copy => true,
                    _ => false,
                };
                if !(copy && self.keys_table.items.len() == 0) {
                    self.mode = mode;
                    self.set_output(OutputType::Action, mode.to_string(), now);
                }
                (Request::Done, false)
            },
            _ => {
                self.toggle_table_size(now);
                (Request::Done, false)
            },
        }
    }

    /// Carries out a command that sets or gets an option.
    fn dispatch_option(&mut self, command: Command, now: u64) -> (r: (Request, bool))
        requires
            command_group(command@) == 3,
        ensures
            (final(self)@, r.0@, r.1) == old(self)@.dispatched(command@, now),
    {
        match command {
            Command::SetOption(option, value) => (self.set_option(option, value, now), false),
            Command::Get(option) => {
                let (output_type, message) = self.get_option(option.as_str());
                self.set_output(output_type, message, now);
                (Request::Done, false)
            },
            _ => (Request::Done, false),
        }
    }

    /// Carries a command out once the prompt is prepared.
    fn dispatch(&mut self, command: Command, now: u64) -> (r: (Request, bool))
        ensures
            (final(self)@, r.0@, r.1) == old(self)@.dispatched(command@, now),
    {
        let group: u8 = match &command {
            Command::ImportKeys(_, _) => 1,
            Command::ImportClipboard => 1,
            Command::ExportKeys(_, _, _) => 1,
            Command::DeleteKey(_, _) => 1,
            Command::SendKey(_) => 1,
            Command::EditKey(_) => 1,
            Command::SignKey(_) => 1,
            Command::GenerateKey => 1,
            Command::RefreshKeys => 1,
            Command::Paste => 1,
            Command::Refresh => 1,
            Command::Copy(_) => 2,
            Command::ToggleDetail(_) => 2,
            Command::ToggleTableSize => 2,
            Command::Scroll(_, _) => 2,
            Command::SwitchMode(_) => 2,
            Command::SetOption(_, _) => 3,
            Command::Get(_) => 3,
            _ => 0,
        };
        if group == 0 {
            self.dispatch_view(command, now)
        } else if group == 1 {
            self.dispatch_store(command, now)
        } else if group == 2 {
            self.dispatch_table(command, now)
        } else {
            self.dispatch_option(command, now)
        }
    }

    /// Runs the given command which is used to specify
    /// the widget to render or action to perform; `now` is the time in
    /// milliseconds. What the command needs of the world around the
    /// application is handed out as a request, whose answer goes to
    /// [`App::respond`].
    pub fn run_command(&mut self, command: Command, now: u64) -> (request: Request)
        ensures
            (final(self)@, request@) == old(self)@.ran(command@, now),
    {
        match &command {
            Command::Confirm(inner) => {
                self.prompt.set_command(inner.duplicate(), now);
            },
            _ => {
                if self.prompt.command.is_some() {
                    self.prompt.clear();
                }
            },
        }
        let (request, show_options) = self.dispatch(command, now);
        self.state.show_options = show_options;
        request
    }

    /// Takes the answer to a request, and tells what is left to do; `now`
    /// is the time in milliseconds.
    pub fn respond(&mut self, request: Request, response: Response, now: u64) -> (next: Request)
        ensures
            (final(self)@, next@) == old(self)@.responded(request@, response@, now),
    {
        match (request, response) {
            (Request::ReadClipboard(ClipboardUse::Import), Response::Text(text)) => {
                let mut keys: Vec<String> = Vec::new();
                keys.push(text);
                assert(views(keys@) =~= seq![text@]);
                Request::ImportKeys(keys, false)
            },
            (Request::ReadClipboard(ClipboardUse::Paste), Response::Text(text)) => {
                self.prompt.clear();
                self.prompt.text = concat(":", text.as_str());
                Request::Done
            },
            (Request::ReadClipboard(_), Response::Failed(error)) => self.show(
                OutputType::Failure,
                concat("clipboard error: ", error.as_str()),
                now,
            ),
            (Request::ImportKeys(_, _), Response::Count(count)) => {
                let mut message = decimal_string(count as u64);
                message.append(" key(s) imported");
                Request::Reload(Some(message))
            },
            (Request::ImportKeys(_, _), Response::Failed(error)) => self.show(
                OutputType::Failure,
                concat("import error: ", error.as_str()),
                now,
            ),
            (Request::ExportKeys(_, _), Response::Text(path)) => self.show(
                OutputType::Success,
                concat("export: ", path.as_str()),
                now,
            ),
            (Request::ExportKeys(_, _), Response::Failed(error)) => self.show(
                OutputType::Failure,
                concat("export error: ", error.as_str()),
                now,
            ),
            (Request::DeleteKey(_, _), Response::Finished) => Request::Reload(None),
            (Request::DeleteKey(_, _), Response::Failed(error)) => self.show(
                OutputType::Failure,
                concat("delete error: ", error.as_str()),
                now,
            ),
            (Request::SendKey(_), Response::Text(id)) => self.show(
                OutputType::Success,
                concat("key sent to the keyserver: 0x", id.as_str()),
                now,
            ),
            (Request::SendKey(_), Response::Failed(error)) => self.show(
                OutputType::Failure,
                concat("send error: ", error.as_str()),
                now,
            ),
            (Request::RunGpg(_, message), Response::Finished) => Request::Reload(message),
            (Request::RunGpg(_, _), Response::Failed(error)) => self.show(
                OutputType::Failure,
                concat("execution error: ", error.as_str()),
                now,
            ),
            (Request::CheckPath(path), Response::Exists(exists)) => {
                if exists {
                    let quoted = debug_quote(path.as_str());
                    self.gpgme.output_dir = path;
                    self.show(
                        OutputType::Success,
                        concat("output directory: ", quoted.as_str()),
                        now,
                    )
                } else {
                    self.show(OutputType::Failure, copy_of("path does not exist"), now)
                }
            },
            (Request::ExportKey(_, _), Response::Text(key)) => self.deliver(
                key,
                Selection::Key,
                now,
            ),
            (Request::ExportKey(_, _), Response::Failed(error)) => {
                self.mode = Mode::Normal;
                self.show(OutputType::Failure, concat("selection error: ", error.as_str()), now)
            },
            (Request::WriteClipboard(_, selection), Response::Finished) => {
                let mut message = selection.to_string();
                message.append(" copied to clipboard");
                self.show(OutputType::Success, message, now)
            },
            (Request::WriteClipboard(_, _), Response::Failed(error)) => self.show(
                OutputType::Failure,
                concat("clipboard error: ", error.as_str()),
                now,
            ),
            (Request::Reload(message), Response::Keys(public_keys, secret_keys)) => {
                self.refresh(public_keys, secret_keys);
                match message {
                    Some(text) => self.show(OutputType::Success, text, now),
                    None => Request::Done,
                }
            },
            (Request::Reload(_), Response::Failed(error)) => self.show(
                OutputType::Failure,
                concat("refresh error: ", error.as_str()),
                now,
            ),
            _ => Request::Done,
        }
    }
}

} // verus!
