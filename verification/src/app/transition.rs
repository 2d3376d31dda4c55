//! What each command does to the application, stated over what the
//! application holds.

use crate::app::command::{bool_text, CommandView};
use crate::app::launcher::{AppView, TableView};
use crate::app::mode::{mode_of, Mode};
use crate::app::output::OutputType;
use crate::app::prompt::{PromptView, COMMAND_PREFIX, SEARCH_PREFIX};
use crate::app::request::{ClipboardUse, RequestView, ResponseView};
use crate::app::selection::{selection_text, Selection};
use crate::app::state::StateView;
use crate::app::style::Style;
use crate::app::tab::{next_tab, previous_tab, Tab};
use crate::gpg::config::GpgConfigView;
use crate::gpg::key::{
    increased, key_detail_of, key_type_text, subkey_info, user_info, GpgKeyView, KeyDetail, KeyType,
};
use crate::text::{debug_quoted, decimal, first_char, joined, lowercase, u16_value};
use crate::widget::list::{next_index, previous_index, ListState};
use crate::widget::row::{ScrollAmount, ScrollDirection};
use crate::widget::style::{color_of, color_text, hex_rgb};
use crate::widget::table::{scrolled, TableSize, TableState, TuiState};
use vstd::prelude::*;

verus! {

/// The group of a command: 1 for what needs the key store or the
/// clipboard, 2 for what works on the table of keys, 3 for options, and 0
/// for the rest.
pub open spec fn command_group(command: CommandView) -> int {
    match command {
        CommandView::ImportKeys(_, _) => 1,
        CommandView::ImportClipboard => 1,
        CommandView::ExportKeys(_, _, _) => 1,
        CommandView::DeleteKey(_, _) => 1,
        CommandView::SendKey(_) => 1,
        CommandView::EditKey(_) => 1,
        CommandView::SignKey(_) => 1,
        CommandView::GenerateKey => 1,
        CommandView::RefreshKeys => 1,
        CommandView::Paste => 1,
        CommandView::Refresh => 1,
        CommandView::Copy(_) => 2,
        CommandView::ToggleDetail(_) => 2,
        CommandView::ToggleTableSize => 2,
        CommandView::Scroll(_, _) => 2,
        CommandView::SwitchMode(_) => 2,
        CommandView::SetOption(_, _) => 3,
        CommandView::Get(_) => 3,
        _ => 0,
    }
}

/// What `true` and `false` denote; nothing else denotes a truth value.
pub open spec fn bool_of(text: Seq<char>) -> Option<bool> {
    if text == "true"@ {
        Some(true)
    } else if text == "false"@ {
        Some(false)
    } else {
        None
    }
}

/// The number that a text denotes, or 0 where it denotes none.
pub open spec fn u16_or_zero(text: Seq<char>) -> u16 {
    match u16_value(text) {
        Some(n) => n,
        None => 0,
    }
}

/// The path of a file in a directory.
pub open spec fn joined_path(directory: Seq<char>, file: Seq<char>) -> Seq<char> {
    if directory.len() == 0 {
        file
    } else if directory.last() == '/' {
        directory + file
    } else {
        directory + "/"@ + file
    }
}

/// The name of the file to which keys are exported: the kind of key, the
/// pattern where there is exactly one, and the kind of output.
pub open spec fn export_file_name(key_type: KeyType, patterns: Seq<Seq<char>>, armor: bool)
    -> Seq<char> {
    key_type_text(key_type) + "_"@ + (if patterns.len() == 1 {
        patterns[0]
    } else {
        "out"@
    }) + "."@ + (if armor {
        "asc"@
    } else {
        "pgp"@
    })
}

/// The lower-case name of a mode.
pub open spec fn mode_name(mode: Mode) -> Seq<char> {
    match mode {
        Mode::Normal => "normal"@,
        Mode::Visual => "visual"@,
        Mode::Copy => "copy"@,
    }
}

/// The banner of a mode.
pub open spec fn mode_banner(mode: Mode) -> Seq<char> {
    match mode {
        Mode::Normal => "-- NORMAL --"@,
        Mode::Visual => "-- VISUAL --"@,
        Mode::Copy => "-- COPY --"@,
    }
}

/// The lower-case name of a level of detail.
pub open spec fn detail_name(detail: KeyDetail) -> Seq<char> {
    match detail {
        KeyDetail::Minimum => "minimum"@,
        KeyDetail::Standard => "standard"@,
        KeyDetail::Full => "full"@,
    }
}

/// The lower-case name of a table size.
pub open spec fn size_name(size: TableSize) -> Seq<char> {
    match size {
        TableSize::Normal => "normal"@,
        TableSize::Compact => "compact"@,
        TableSize::Minimized => "minimized"@,
    }
}

/// The lower-case name of a style.
pub open spec fn style_name(style: Style) -> Seq<char> {
    match style {
        Style::Plain => "plain"@,
        Style::Colored => "colored"@,
    }
}

/// The keys of a sequence with the level of detail of each set to
/// `detail`.
pub open spec fn with_detail(keys: Seq<GpgKeyView>, detail: KeyDetail) -> Seq<GpgKeyView> {
    Seq::new(keys.len(), |i: int| GpgKeyView { detail, ..keys[i] })
}

/// The keys of a sequence with the level of detail of the key at `index`
/// set to `detail`; the same keys where there is no such key.
pub open spec fn with_detail_at(keys: Seq<GpgKeyView>, index: int, detail: KeyDetail) -> Seq<
    GpgKeyView,
> {
    if 0 <= index < keys.len() {
        keys.update(index, GpgKeyView { detail, ..keys[index] })
    } else {
        keys
    }
}

/// The keys of a sequence with the level of detail of the key at `index`
/// increased; the same keys where there is no such key.
pub open spec fn with_detail_increased(keys: Seq<GpgKeyView>, index: int) -> Seq<GpgKeyView> {
    if 0 <= index < keys.len() {
        keys.update(index, GpgKeyView { detail: increased(keys[index].detail), ..keys[index] })
    } else {
        keys
    }
}

/// The state of a list with the given row selected.
pub open spec fn list_selected(state: ListState, index: usize) -> ListState {
    ListState { selected: Some(index), ..state }
}

/// The index of the last of `len` items; 0 where there is none.
pub open spec fn last_index(len: nat) -> usize {
    if len == 0 {
        0
    } else {
        (len - 1) as usize
    }
}

impl TableView {
    /// The table with the row at `index` selected.
    pub open spec fn select(self, index: usize) -> TableView {
        TableView {
            state: TableState {
                tui: TuiState { selected: Some(index), ..self.state.tui },
                ..self.state
            },
            ..self
        }
    }

    /// The table after moving to the row at `index`: the row scroll starts
    /// anew.
    pub open spec fn moved_to(self, index: usize) -> TableView {
        TableView {
            state: TableState {
                tui: TuiState { selected: Some(index), ..self.state.tui },
                scroll: ScrollAmount { vertical: 0, horizontal: 0 },
                ..self.state
            },
            ..self
        }
    }
}

impl AppView {
    /// The application with a message in the prompt.
    pub open spec fn with_output(self, output_type: OutputType, message: Seq<char>, now: u64)
        -> AppView {
        AppView { prompt: self.prompt.with_output(output_type, message, now), ..self }
    }

    /// The application showing a message, with nothing left to do.
    pub open spec fn shows(self, output_type: OutputType, message: Seq<char>, now: u64) -> (
        AppView,
        RequestView,
    ) {
        (self.with_output(output_type, message, now), RequestView::Done)
    }

    /// The application before a command is carried out: a command to
    /// confirm becomes the question of the prompt, any other command
    /// dismisses a question that was open.
    pub open spec fn begun(self, command: CommandView, now: u64) -> AppView {
        match command {
            CommandView::Confirm(inner) => AppView {
                prompt: self.prompt.with_command(*inner, now),
                ..self
            },
            _ => if self.prompt.command is Some {
                AppView { prompt: self.prompt.cleared(), ..self }
            } else {
                self
            },
        }
    }

    /// The keys of a kind.
    pub open spec fn keys_of(self, key_type: KeyType) -> Seq<GpgKeyView> {
        match key_type {
            KeyType::Public => self.public_keys,
            KeyType::Secret => self.secret_keys,
        }
    }

    /// The state that the table of a kind of key was left in, if it was
    /// left.
    pub open spec fn table_state_of(self, key_type: KeyType) -> Option<TableState> {
        match key_type {
            KeyType::Public => self.public_table_state,
            KeyType::Secret => self.secret_table_state,
        }
    }

    /// The application with the table of the current kind of key put
    /// aside: its state and its keys are remembered.
    pub open spec fn table_saved(self) -> AppView {
        match self.tab {
            Tab::Keys(KeyType::Public) => AppView {
                public_table_state: Some(self.keys_table.state),
                public_keys: self.keys_table.default_items,
                ..self
            },
            Tab::Keys(KeyType::Secret) => AppView {
                secret_table_state: Some(self.keys_table.state),
                secret_keys: self.keys_table.default_items,
                ..self
            },
            Tab::Help => self,
        }
    }

    /// The application after the keys of a kind were listed: the table of
    /// the current tab is put aside, and the table of the kind is shown in
    /// the state in which it was left.
    pub open spec fn keys_listed(self, key_type: KeyType) -> AppView {
        let saved = self.table_saved();
        let fresh = TableView::with_items(saved.keys_of(key_type));
        AppView {
            keys_table: match saved.table_state_of(key_type) {
                Some(state) => TableView { state, ..fresh },
                None => fresh,
            },
            tab: Tab::Keys(key_type),
            ..saved
        }
    }

    /// The application after the help was opened.
    pub open spec fn help_shown(self) -> AppView {
        AppView {
            tab: Tab::Help,
            key_bindings_state: if self.key_bindings_state.selected is None {
                list_selected(self.key_bindings_state, 0)
            } else {
                self.key_bindings_state
            },
            ..self
        }
    }

    /// The mode that the options menu offers to switch to.
    pub open spec fn other_mode(self) -> Mode {
        if self.mode == Mode::Visual {
            Mode::Normal
        } else {
            Mode::Visual
        }
    }

    /// The entries of the options menu on a tab of keys, for the key with
    /// the given id.
    pub open spec fn key_options(self, key_type: KeyType, id: Seq<char>) -> Seq<CommandView> {
        seq![
            CommandView::NoOp,
            CommandView::ShowHelp,
            CommandView::Refresh,
            CommandView::RefreshKeys,
            CommandView::SetOption("prompt"@, ":import "@),
            CommandView::ImportClipboard,
            CommandView::SetOption("prompt"@, ":receive "@),
            CommandView::ExportKeys(key_type, seq![id], false),
        ] + (if key_type == KeyType::Secret {
            seq![CommandView::ExportKeys(key_type, seq![id], true)]
        } else {
            Seq::empty()
        }) + seq![
            CommandView::ExportKeys(key_type, Seq::empty(), false),
            CommandView::Confirm(Box::new(CommandView::DeleteKey(key_type, id))),
            CommandView::Confirm(Box::new(CommandView::SendKey(id))),
            CommandView::EditKey(id),
        ] + (if key_type == KeyType::Secret {
            seq![CommandView::SetOption("signer"@, id)]
        } else {
            Seq::empty()
        }) + seq![
            CommandView::SignKey(id),
            CommandView::GenerateKey,
            CommandView::SetOption("armor"@, bool_text(!self.gpgme.armor)),
            CommandView::Copy(Selection::Key),
            CommandView::Copy(Selection::KeyId),
            CommandView::Copy(Selection::KeyFingerprint),
            CommandView::Copy(Selection::KeyUserId),
            CommandView::Copy(Selection::Row1),
            CommandView::Copy(Selection::Row2),
            CommandView::Paste,
            CommandView::ToggleDetail(false),
            CommandView::ToggleDetail(true),
            CommandView::SetOption(
                "margin"@,
                if self.keys_table_margin == 1 {
                    "0"@
                } else {
                    "1"@
                },
            ),
            CommandView::ToggleTableSize,
            CommandView::SetOption("colored"@, bool_text(self.state.style != Style::Colored)),
            CommandView::SwitchMode(self.other_mode()),
            CommandView::Quit,
        ]
    }

    /// The entries of the options menu on the help tab.
    pub open spec fn help_options(self) -> Seq<CommandView> {
        seq![
            CommandView::NoOp,
            CommandView::ListKeys(KeyType::Public),
            CommandView::ListKeys(KeyType::Secret),
            CommandView::SwitchMode(self.other_mode()),
            CommandView::Refresh,
            CommandView::Quit,
        ]
    }

    /// The application with the given entries in the options menu: the
    /// selection stays where the number of entries is what it was, or
    /// where there were none, and else goes to the first entry.
    pub open spec fn with_options(self, options: Seq<CommandView>) -> AppView {
        AppView {
            options,
            options_state: ListState {
                offset: 0,
                selected: if self.options.len() == 0 || options.len() == self.options.len() {
                    match self.options_state.selected {
                        Some(i) => Some(i),
                        None => Some(0usize),
                    }
                } else {
                    Some(0usize)
                },
            },
            ..self
        }
    }

    /// The application after the options menu was asked for, and whether
    /// the menu is shown. On a tab of keys the menu is for the selected
    /// key; without one there is no menu but a message.
    pub open spec fn options_shown(self, now: u64) -> (AppView, bool) {
        match self.tab {
            Tab::Keys(key_type) => match self.keys_table.selected() {
                Some(key) => (
                    self.with_options(self.key_options(key_type, key.inner.id_text())),
                    true,
                ),
                None => (self.with_output(OutputType::Failure, "invalid selection"@, now), false),
            },
            Tab::Help => (self.with_options(self.help_options()), true),
        }
    }

    /// The arguments with which `gpg` is run: the settings of the key
    /// store, then the arguments of the operation.
    pub open spec fn gpg_arguments(self, operation: Seq<Seq<char>>) -> Seq<Seq<char>> {
        seq!["--homedir"@, self.gpgme.home_dir] + (if self.gpgme.armor {
            seq!["--armor"@]
        } else {
            Seq::empty()
        }) + (match self.gpgme.default_key {
            Some(key) => seq!["--default-key"@, key],
            None => Seq::empty(),
        }) + operation
    }

    /// The request to run `gpg` for a command that `gpg` carries out.
    pub open spec fn gpg_request(self, command: CommandView) -> RequestView {
        match command {
            CommandView::EditKey(key) => RequestView::RunGpg(
                self.gpg_arguments(seq!["--edit-key"@, key]),
                None,
            ),
            CommandView::SignKey(key) => RequestView::RunGpg(
                self.gpg_arguments(seq!["--sign-key"@, key]),
                None,
            ),
            CommandView::ImportKeys(keys, _) => RequestView::RunGpg(
                self.gpg_arguments(seq!["--receive-keys"@] + keys),
                None,
            ),
            CommandView::ExportKeys(key_type, keys, _) => {
                let path = joined_path(
                    self.gpgme.output_dir,
                    export_file_name(key_type, keys, self.gpgme.armor),
                );
                RequestView::RunGpg(
                    self.gpg_arguments(
                        seq!["--output"@, path, "--export-secret-subkeys"@] + keys,
                    ),
                    Some("export: "@ + path),
                )
            },
            CommandView::RefreshKeys => RequestView::RunGpg(
                self.gpg_arguments(seq!["--refresh-keys"@]),
                None,
            ),
            _ => RequestView::RunGpg(self.gpg_arguments(seq!["--full-gen-key"@]), None),
        }
    }

    /// The application with the level of detail of all keys increased.
    pub open spec fn detail_toggled(self) -> AppView {
        let detail = increased(self.keys_table_detail);
        AppView {
            keys_table_detail: detail,
            keys_table: TableView {
                items: with_detail(self.keys_table.items, detail),
                default_items: with_detail(self.keys_table.default_items, detail),
                ..self.keys_table
            },
            ..self
        }
    }

    /// Whether the table shows all of its keys, so that a row of the
    /// table and the key at the same place are the same key.
    pub open spec fn shows_all_keys(self) -> bool {
        self.keys_table.items.len() == self.keys_table.default_items.len()
    }

    /// The application with the level of detail of the selected key
    /// increased.
    pub open spec fn selected_detail_toggled(self) -> AppView {
        match self.keys_table.state.tui.selected {
            Some(index) => AppView {
                keys_table: TableView {
                    items: with_detail_increased(self.keys_table.items, index as int),
                    default_items: if self.shows_all_keys() {
                        with_detail_increased(self.keys_table.default_items, index as int)
                    } else {
                        self.keys_table.default_items
                    },
                    ..self.keys_table
                },
                ..self
            },
            None => self,
        }
    }

    /// The application with the level of detail of the selected key set.
    pub open spec fn selected_detail_set(self, detail: KeyDetail) -> AppView {
        match self.keys_table.state.tui.selected {
            Some(index) => AppView {
                keys_table: TableView {
                    items: with_detail_at(self.keys_table.items, index as int, detail),
                    default_items: if self.shows_all_keys() {
                        with_detail_at(self.keys_table.default_items, index as int, detail)
                    } else {
                        self.keys_table.default_items
                    },
                    ..self.keys_table
                },
                ..self
            },
            None => self,
        }
    }

    /// The application after a scroll of the current widget, and whether
    /// the options menu stays open: the menu where it is shown, else the
    /// list of key bindings on the help tab, else the table of keys.
    pub open spec fn widget_scrolled(self, direction: ScrollDirection) -> (AppView, bool) {
        let target: Option<spec_fn(Option<usize>, nat) -> usize> = match direction {
            ScrollDirection::Down(_) => Some(
                |selected: Option<usize>, len: nat| next_index(selected, len),
            ),
            ScrollDirection::Up(_) => Some(
                |selected: Option<usize>, len: nat| previous_index(selected, len),
            ),
            ScrollDirection::Top => Some(|selected: Option<usize>, len: nat| 0usize),
            ScrollDirection::Bottom => Some(
                |selected: Option<usize>, len: nat| last_index(len),
            ),
            _ => None,
        };
        match target {
            Some(index_of) => if self.state.show_options {
                (
                    AppView {
                        options_state: list_selected(
                            self.options_state,
                            index_of(self.options_state.selected, self.options.len()),
                        ),
                        ..self
                    },
                    true,
                )
            } else if self.tab == Tab::Help {
                (
                    AppView {
                        key_bindings_state: list_selected(
                            self.key_bindings_state,
                            index_of(self.key_bindings_state.selected, self.key_bindings_len),
                        ),
                        ..self
                    },
                    false,
                )
            } else {
                let index = index_of(
                    self.keys_table.state.tui.selected,
                    self.keys_table.items.len(),
                );
                (
                    AppView {
                        keys_table: match direction {
                            ScrollDirection::Top => self.keys_table.select(index),
                            ScrollDirection::Bottom => self.keys_table.select(index),
                            _ => self.keys_table.moved_to(index),
                        },
                        ..self
                    },
                    false,
                )
            },
            None => (self, false),
        }
    }

    /// The application after the prompt was set to a text.
    pub open spec fn prompt_set(self, value: Seq<char>) -> (AppView, RequestView) {
        (
            AppView { prompt: PromptView { text: value, ..self.prompt.cleared() }, ..self },
            RequestView::Done,
        )
    }

    /// The application after the mode was set by its name.
    pub open spec fn mode_set(self, value: Seq<char>, now: u64) -> (AppView, RequestView) {
        match mode_of(lowercase(value)) {
            Some(mode) => AppView { mode, ..self }.shows(
                OutputType::Success,
                "mode: "@ + mode_name(mode),
                now,
            ),
            None => self.shows(OutputType::Failure, "invalid mode"@, now),
        }
    }

    /// The application after armored output was switched on or off.
    pub open spec fn armor_set(self, value: Seq<char>, now: u64) -> (AppView, RequestView) {
        match bool_of(value) {
            Some(armor) => AppView { gpgme: GpgConfigView { armor, ..self.gpgme }, ..self }.shows(
                OutputType::Success,
                "armor: "@ + bool_text(armor),
                now,
            ),
            None => self.shows(OutputType::Failure, "usage: set armor <true/false>"@, now),
        }
    }

    /// The application after the key for signing was set.
    pub open spec fn signer_set(self, value: Seq<char>, now: u64) -> (AppView, RequestView) {
        AppView { gpgme: GpgConfigView { default_key: Some(value), ..self.gpgme }, ..self }.shows(
            OutputType::Success,
            "signer: "@ + value,
            now,
        )
    }

    /// The application after the width was set below which the table is
    /// minimized.
    pub open spec fn minimize_set(self, value: Seq<char>, now: u64) -> (AppView, RequestView) {
        let threshold = u16_or_zero(value);
        AppView {
            keys_table: TableView {
                state: TableState { minimize_threshold: threshold, ..self.keys_table.state },
                ..self.keys_table
            },
            ..self
        }.shows(OutputType::Success, "minimize threshold: "@ + decimal(threshold as nat), now)
    }

    /// The application after the level of detail of the selected key was
    /// set by its name.
    pub open spec fn detail_set(self, value: Seq<char>, now: u64) -> (AppView, RequestView) {
        match key_detail_of(value) {
            Some(detail) => self.selected_detail_set(detail).shows(
                OutputType::Success,
                "detail: "@ + detail_name(detail),
                now,
            ),
            None => self.shows(OutputType::Failure, "usage: set detail <level>"@, now),
        }
    }

    /// The application after the margin of the table was set.
    pub open spec fn margin_set(self, value: Seq<char>, now: u64) -> (AppView, RequestView) {
        let margin = u16_or_zero(value);
        AppView { keys_table_margin: margin, ..self }.shows(
            OutputType::Success,
            "table margin: "@ + decimal(margin as nat),
            now,
        )
    }

    /// The application after colors were switched on or off.
    pub open spec fn colored_set(self, value: Seq<char>, now: u64) -> (AppView, RequestView) {
        match bool_of(value) {
            Some(colored) => AppView {
                state: StateView {
                    style: if colored {
                        Style::Colored
                    } else {
                        Style::Plain
                    },
                    ..self.state
                },
                ..self
            }.shows(OutputType::Success, "colored: "@ + bool_text(colored), now),
            None => self.shows(OutputType::Failure, "usage: set colored <true/false>"@, now),
        }
    }

    /// The application after the accent color was set.
    pub open spec fn color_set(self, value: Seq<char>, now: u64) -> (AppView, RequestView) {
        let color = color_of(lowercase(value), hex_rgb("#"@ + value));
        AppView { state: StateView { color, ..self.state }, ..self }.shows(
            OutputType::Success,
            "color: "@ + color_text(color),
            now,
        )
    }

    /// The application after an option was set, and the request that
    /// setting it makes.
    pub open spec fn option_set(self, option: Seq<char>, value: Seq<char>, now: u64) -> (
        AppView,
        RequestView,
    ) {
        if option == "prompt"@ && (first_char(value) == Some(COMMAND_PREFIX) || first_char(value)
            == Some(SEARCH_PREFIX)) {
            self.prompt_set(value)
        } else if option == "output"@ {
            (self, RequestView::CheckPath(value))
        } else if option == "mode"@ {
            self.mode_set(value, now)
        } else if option == "armor"@ {
            self.armor_set(value, now)
        } else if option == "signer"@ {
            self.signer_set(value, now)
        } else if option == "minimize"@ {
            self.minimize_set(value, now)
        } else if option == "detail"@ {
            self.detail_set(value, now)
        } else if option == "margin"@ {
            self.margin_set(value, now)
        } else if option == "colored"@ {
            self.colored_set(value, now)
        } else if option == "color"@ {
            self.color_set(value, now)
        } else if option.len() > 0 {
            self.shows(OutputType::Failure, "unknown option: "@ + option, now)
        } else {
            self.shows(OutputType::Failure, "usage: set <option> <value>"@, now)
        }
    }

    /// What the application answers when it is asked for an option.
    pub open spec fn option_answer(self, option: Seq<char>) -> (OutputType, Seq<char>) {
        if option == "output"@ {
            (OutputType::Success, "output directory: "@ + debug_quoted(self.gpgme.output_dir))
        } else if option == "mode"@ {
            (OutputType::Success, "mode: "@ + mode_name(self.mode))
        } else if option == "armor"@ {
            (OutputType::Success, "armor: "@ + bool_text(self.gpgme.armor))
        } else if option == "signer"@ {
            (
                OutputType::Success,
                match self.gpgme.default_key {
                    Some(key) => "signer: "@ + key,
                    None => "signer key is not specified"@,
                },
            )
        } else if option == "minimize"@ {
            (
                OutputType::Success,
                "minimize threshold: "@ + decimal(
                    self.keys_table.state.minimize_threshold as nat,
                ),
            )
        } else if option == "detail"@ {
            match self.keys_table.state.tui.selected {
                Some(_) => match self.keys_table.selected() {
                    Some(key) => (OutputType::Success, "detail: "@ + detail_name(key.detail)),
                    None => (OutputType::Failure, "invalid selection"@),
                },
                None => (OutputType::Failure, "unknown selection"@),
            }
        } else if option == "margin"@ {
            (OutputType::Success, "table margin: "@ + decimal(self.keys_table_margin as nat))
        } else if option == "colored"@ {
            (OutputType::Success, "colored: "@ + bool_text(self.state.style == Style::Colored))
        } else if option == "color"@ {
            (OutputType::Success, "color: "@ + color_text(self.state.color))
        } else if option.len() > 0 {
            (OutputType::Failure, "unknown option: "@ + option)
        } else {
            (OutputType::Failure, "usage: get <option>"@)
        }
    }

    /// The application after the content of a selection was found. An
    /// application that was started to select hands the content out and
    /// ends; else the content goes to the clipboard.
    pub open spec fn delivered(self, content: Seq<char>, selection: Selection, now: u64) -> (
        AppView,
        RequestView,
    ) {
        if self.state.select is Some {
            (
                AppView {
                    state: StateView {
                        exit_message: Some(content),
                        running: false,
                        show_options: false,
                        ..self.state
                    },
                    mode: Mode::Normal,
                    ..self
                },
                RequestView::Done,
            )
        } else if self.clipboard {
            (
                AppView { mode: Mode::Normal, ..self },
                RequestView::WriteClipboard(content, selection),
            )
        } else {
            AppView { mode: Mode::Normal, ..self }.shows(
                OutputType::Failure,
                "clipboard not available"@,
                now,
            )
        }
    }

    /// The application after a selection was asked to be copied.
    pub open spec fn copied(self, selection: Selection, now: u64) -> (AppView, RequestView) {
        match self.keys_table.selected() {
            Some(key) => match selection {
                Selection::Row1 => self.delivered(
                    joined(
                        subkey_info(
                            key,
                            self.gpgme.default_key,
                            self.keys_table.state.size != TableSize::Normal,
                        ),
                        "\n"@,
                    ),
                    selection,
                    now,
                ),
                Selection::Row2 => self.delivered(
                    joined(
                        user_info(key, self.keys_table.state.size == TableSize::Minimized),
                        "\n"@,
                    ),
                    selection,
                    now,
                ),
                Selection::Key => (
                    self,
                    RequestView::ExportKey(
                        match self.tab {
                            Tab::Keys(key_type) => key_type,
                            Tab::Help => KeyType::Public,
                        },
                        key.inner.id_text(),
                    ),
                ),
                Selection::KeyId => self.delivered(key.inner.id_text(), selection, now),
                Selection::KeyFingerprint => self.delivered(
                    key.inner.fingerprint_text(),
                    selection,
                    now,
                ),
                Selection::KeyUserId => self.delivered(key.inner.user_id_text(), selection, now),
            },
            None => AppView { mode: Mode::Normal, ..self }.shows(
                OutputType::Failure,
                "invalid selection"@,
                now,
            ),
        }
    }

    /// The application after the keys of the key store were read again:
    /// all is as at the start, but for the style, the color, the settings
    /// of the key store, the history of the prompt and the current tab.
    pub open spec fn refreshed(self, public_keys: Seq<GpgKeyView>, secret_keys: Seq<GpgKeyView>)
        -> AppView {
        AppView {
            state: self.state.refreshed(),
            mode: Mode::Normal,
            prompt: self.prompt.cleared(),
            options_state: list_selected(self.options_state, 0),
            public_keys,
            secret_keys,
            public_table_state: None,
            secret_table_state: None,
            keys_table_detail: KeyDetail::Minimum,
            keys_table_margin: 1,
            keys_table: match self.tab {
                Tab::Keys(KeyType::Public) => TableView::with_items(public_keys),
                Tab::Keys(KeyType::Secret) => TableView::with_items(secret_keys),
                Tab::Help => self.keys_table,
            },
            ..self
        }
    }

    /// What a command does once the prompt is prepared: the application
    /// afterwards, the request that is left, and whether the options menu
    /// is shown.
    pub open spec fn dispatched(self, command: CommandView, now: u64) -> (
        AppView,
        RequestView,
        bool,
    ) {
        match command {
            CommandView::ShowHelp => (self.help_shown(), RequestView::Done, false),
            CommandView::ChangeStyle(style) => (
                AppView { state: StateView { style, ..self.state }, ..self }.with_output(
                    OutputType::Success,
                    "style: "@ + style_name(style),
                    now,
                ),
                RequestView::Done,
                false,
            ),
            CommandView::ShowOutput(output_type, message) => (
                self.with_output(output_type, message, now),
                RequestView::Done,
                false,
            ),
            CommandView::ShowOptions => {
                let (app, shown) = self.options_shown(now);
                (app, RequestView::Done, shown)
            },
            CommandView::ListKeys(key_type) => (
                self.keys_listed(key_type),
                RequestView::Done,
                false,
            ),
            CommandView::ImportKeys(files, receive) => if receive {
                (self, self.gpg_request(command), false)
            } else if files.len() == 0 {
                (
                    self.with_output(OutputType::Failure, "no files given"@, now),
                    RequestView::Done,
                    false,
                )
            } else {
                (self, RequestView::ImportKeys(files, true), false)
            },
            CommandView::ImportClipboard => if self.clipboard {
                (self, RequestView::ReadClipboard(ClipboardUse::Import), false)
            } else {
                (
                    self.with_output(OutputType::Failure, "no files given"@, now),
                    RequestView::Done,
                    false,
                )
            },
            CommandView::ExportKeys(key_type, patterns, subkeys) => if subkeys {
                (self, self.gpg_request(command), false)
            } else {
                (self, RequestView::ExportKeys(key_type, patterns), false)
            },
            CommandView::DeleteKey(key_type, id) => (
                self,
                RequestView::DeleteKey(key_type, id),
                false,
            ),
            CommandView::SendKey(id) => (self, RequestView::SendKey(id), false),
            CommandView::EditKey(_) => (self, self.gpg_request(command), false),
            CommandView::SignKey(_) => (self, self.gpg_request(command), false),
            CommandView::GenerateKey => (self, self.gpg_request(command), false),
            CommandView::RefreshKeys => (self, self.gpg_request(command), false),
            CommandView::Copy(selection) => {
                let (app, request) = self.copied(selection, now);
                (app, request, false)
            },
            CommandView::ToggleDetail(all) => (
                if all {
                    self.detail_toggled()
                } else {
                    self.selected_detail_toggled()
                },
                RequestView::Done,
                false,
            ),
            CommandView::ToggleTableSize => {
                let size = match self.keys_table.state.size {
                    TableSize::Normal => TableSize::Compact,
                    TableSize::Compact => TableSize::Minimized,
                    TableSize::Minimized => TableSize::Normal,
                };
                (
                    AppView {
                        keys_table: TableView {
                            state: TableState {
                                minimize_threshold: 0,
                                size,
                                ..self.keys_table.state
                            },
                            ..self.keys_table
                        },
                        ..self
                    }.with_output(OutputType::Success, "table size: "@ + size_name(size), now),
                    RequestView::Done,
                    false,
                )
            },
            CommandView::Scroll(direction, row) => if row {
                (
                    AppView {
                        keys_table: TableView {
                            state: TableState {
                                scroll: scrolled(self.keys_table.state.scroll, direction),
                                ..self.keys_table.state
                            },
                            ..self.keys_table
                        },
                        ..self
                    },
                    RequestView::Done,
                    false,
                )
            } else {
                let (app, shown) = self.widget_scrolled(direction);
                (app, RequestView::Done, shown)
            },
            CommandView::SetOption(option, value) => {
                let (app, request) = self.option_set(option, value, now);
                (app, request, false)
            },
            CommandView::Get(option) => {
                let (output_type, message) = self.option_answer(option);
                (self.with_output(output_type, message, now), RequestView::Done, false)
            },
            CommandView::SwitchMode(mode) => if mode == Mode::Copy && self.keys_table.items.len()
                == 0 {
                (self, RequestView::Done, false)
            } else {
                (
                    AppView { mode, ..self }.with_output(
                        OutputType::Action,
                        mode_banner(mode),
                        now,
                    ),
                    RequestView::Done,
                    false,
                )
            },
            CommandView::Paste => if self.clipboard {
                (self, RequestView::ReadClipboard(ClipboardUse::Paste), false)
            } else {
                (
                    self.with_output(OutputType::Failure, "clipboard not available"@, now),
                    RequestView::Done,
                    false,
                )
            },
            CommandView::EnableInput => (
                AppView { prompt: self.prompt.enabled(COMMAND_PREFIX), ..self },
                RequestView::Done,
                false,
            ),
            CommandView::Search(query) => (
                AppView {
                    prompt: PromptView {
                        text: "/"@ + (match query {
                            Some(text) => text,
                            None => Seq::empty(),
                        }),
                        ..self.prompt
                    }.enabled(SEARCH_PREFIX),
                    keys_table: TableView {
                        items: self.keys_table.default_items,
                        ..self.keys_table
                    },
                    ..self
                },
                RequestView::Done,
                false,
            ),
            CommandView::NextTab => match next_tab(self.tab) {
                Tab::Keys(key_type) => (self.keys_listed(key_type), RequestView::Done, false),
                Tab::Help => (self.help_shown(), RequestView::Done, false),
            },
            CommandView::PreviousTab => match previous_tab(self.tab) {
                Tab::Keys(key_type) => (self.keys_listed(key_type), RequestView::Done, false),
                Tab::Help => (self.help_shown(), RequestView::Done, false),
            },
            CommandView::Refresh => (self, RequestView::Reload(None), false),
            CommandView::Quit => (
                AppView { state: StateView { running: false, ..self.state }, ..self },
                RequestView::Done,
                false,
            ),
            CommandView::Confirm(_) => (self, RequestView::Done, false),
            CommandView::NoOp => (self, RequestView::Done, false),
        }
    }

    /// What a command does to the application, and the request that it
    /// leaves to the world around.
    pub open spec fn ran(self, command: CommandView, now: u64) -> (AppView, RequestView) {
        let (app, request, show_options) = self.begun(command, now).dispatched(command, now);
        (AppView { state: StateView { show_options, ..app.state }, ..app }, request)
    }

    /// What the answer to a request does to the application, and the
    /// request that follows. An answer that does not fit the request
    /// changes nothing.
    pub open spec fn responded(self, request: RequestView, response: ResponseView, now: u64) -> (
        AppView,
        RequestView,
    ) {
        match (request, response) {
            (RequestView::ReadClipboard(ClipboardUse::Import), ResponseView::Text(text)) => (
                self,
                RequestView::ImportKeys(seq![text], false),
            ),
            (RequestView::ReadClipboard(ClipboardUse::Paste), ResponseView::Text(text)) => (
                AppView {
                    prompt: PromptView { text: ":"@ + text, ..self.prompt.cleared() },
                    ..self
                },
                RequestView::Done,
            ),
            (RequestView::ReadClipboard(_), ResponseView::Failed(error)) => self.shows(
                OutputType::Failure,
                "clipboard error: "@ + error,
                now,
            ),
            (RequestView::ImportKeys(_, _), ResponseView::Count(count)) => (
                self,
                RequestView::Reload(Some(decimal(count as nat) + " key(s) imported"@)),
            ),
            (RequestView::ImportKeys(_, _), ResponseView::Failed(error)) => self.shows(
                OutputType::Failure,
                "import error: "@ + error,
                now,
            ),
            (RequestView::ExportKeys(_, _), ResponseView::Text(path)) => self.shows(
                OutputType::Success,
                "export: "@ + path,
                now,
            ),
            (RequestView::ExportKeys(_, _), ResponseView::Failed(error)) => self.shows(
                OutputType::Failure,
                "export error: "@ + error,
                now,
            ),
            (RequestView::DeleteKey(_, _), ResponseView::Finished) => (
                self,
                RequestView::Reload(None),
            ),
            (RequestView::DeleteKey(_, _), ResponseView::Failed(error)) => self.shows(
                OutputType::Failure,
                "delete error: "@ + error,
                now,
            ),
            (RequestView::SendKey(_), ResponseView::Text(id)) => self.shows(
                OutputType::Success,
                "key sent to the keyserver: 0x"@ + id,
                now,
            ),
            (RequestView::SendKey(_), ResponseView::Failed(error)) => self.shows(
                OutputType::Failure,
                "send error: "@ + error,
                now,
            ),
            (RequestView::RunGpg(_, message), ResponseView::Finished) => (
                self,
                RequestView::Reload(message),
            ),
            (RequestView::RunGpg(_, _), ResponseView::Failed(error)) => self.shows(
                OutputType::Failure,
                "execution error: "@ + error,
                now,
            ),
            (RequestView::CheckPath(path), ResponseView::Exists(exists)) => if exists {
                AppView {
                    gpgme: GpgConfigView { output_dir: path, ..self.gpgme },
                    ..self
                }.shows(OutputType::Success, "output directory: "@ + debug_quoted(path), now)
            } else {
                self.shows(OutputType::Failure, "path does not exist"@, now)
            },
            (RequestView::ExportKey(_, _), ResponseView::Text(key)) => self.delivered(
                key,
                Selection::Key,
                now,
            ),
            (RequestView::ExportKey(_, _), ResponseView::Failed(error)) => AppView {
                mode: Mode::Normal,
                ..self
            }.shows(OutputType::Failure, "selection error: "@ + error, now),
            (RequestView::WriteClipboard(_, selection), ResponseView::Finished) => self.shows(
                OutputType::Success,
                selection_text(selection) + " copied to clipboard"@,
                now,
            ),
            (RequestView::WriteClipboard(_, _), ResponseView::Failed(error)) => self.shows(
                OutputType::Failure,
                "clipboard error: "@ + error,
                now,
            ),
            (RequestView::Reload(message), ResponseView::Keys(public_keys, secret_keys)) => {
                let app = self.refreshed(public_keys, secret_keys);
                match message {
                    Some(text) => app.shows(OutputType::Success, text, now),
                    None => (app, RequestView::Done),
                }
            },
            (RequestView::Reload(_), ResponseView::Failed(error)) => self.shows(
                OutputType::Failure,
                "refresh error: "@ + error,
                now,
            ),
            _ => (self, RequestView::Done),
        }
    }
}

} // verus!
