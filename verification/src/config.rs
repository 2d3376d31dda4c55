//! What the configuration file holds.

use crate::app::command::{command_of_text, Command, CommandView};
use crate::app::style::{style_of, Style};
use crate::args::{Args, ArgsView};
use crate::error::{ParseError, ParseErrorView};
use crate::gpg::key::{copy_text, text_view, KeyDetail};
use crate::term::key::{key_event_of, KeyEvent};
use crate::text::{ascii_lowered, copy_of, lowercase, views};
use crate::widget::style::{color_of, hex_rgb, Color, TuiColor};
use vstd::prelude::*;

verus! {

/// Representation of custom key bindings.
#[derive(Debug, Clone, PartialEq)]
pub struct CustomKeyBinding {
    /// Key events to check.
    pub keys: Vec<KeyEvent>,
    /// Command to run.
    pub command: Command,
}

/// What a custom key binding says.
pub struct CustomKeyBindingView {
    pub keys: Seq<KeyEvent>,
    pub command: CommandView,
}

impl View for CustomKeyBinding {
    type V = CustomKeyBindingView;

    open spec fn view(&self) -> CustomKeyBindingView {
        CustomKeyBindingView { keys: self.keys@, command: self.command@ }
    }
}

/// The views of a sequence of key bindings.
pub open spec fn binding_views(bindings: Seq<CustomKeyBinding>) -> Seq<CustomKeyBindingView> {
    Seq::new(bindings.len(), |i: int| bindings[i]@)
}

/// The index of the first word that denotes no key chord, if there is one.
pub open spec fn first_invalid_key(words: Seq<Seq<char>>) -> Option<int>
    decreases words.len(),
{
    if words.len() == 0 {
        None
    } else {
        match first_invalid_key(words.drop_last()) {
            Some(i) => Some(i),
            None => if key_event_of(words.last()) is None {
                Some(words.len() - 1)
            } else {
                None
            },
        }
    }
}

/// The chords that the words denote, where each of them denotes one.
pub open spec fn key_events_of(words: Seq<Seq<char>>) -> Seq<KeyEvent> {
    Seq::new(words.len(), |i: int| key_event_of(words[i]).unwrap())
}

/// The binding that a list of chord notations and a command text denote:
/// the first notation that is no chord is the error, then a text that is
/// no command.
pub open spec fn binding_of(keys: Seq<Seq<char>>, command: Seq<char>) -> Result<
    CustomKeyBindingView,
    ParseErrorView,
> {
    match first_invalid_key(keys) {
        Some(i) => Err(ParseErrorView::InvalidKey(keys[i])),
        None => match command_of_text(command) {
            Some(view) => Ok(CustomKeyBindingView { keys: key_events_of(keys), command: view }),
            None => Err(ParseErrorView::InvalidCommand(command)),
        },
    }
}

proof fn lemma_first_invalid_key(words: Seq<Seq<char>>)
    ensures
        match first_invalid_key(words) {
            Some(i) => 0 <= i < words.len() && key_event_of(words[i]) is None && forall|j: int|
                0 <= j < i ==> key_event_of(#[trigger] words[j]) is Some,
            None => forall|j: int| 0 <= j < words.len() ==> key_event_of(#[trigger] words[j]) is Some,
        },
    decreases words.len(),
{
    if words.len() > 0 {
        lemma_first_invalid_key(words.drop_last());
        assert(forall|j: int| 0 <= j < words.len() - 1 ==> words.drop_last()[j] == words[j]);
    }
}

impl CustomKeyBinding {
    /// Reads a binding from the notations of its chords and the text of its
    /// command. One notation or a command that cannot be read fails this
    /// binding, and no other.
    pub fn parse(keys: &Vec<String>, command: &str) -> (r: Result<CustomKeyBinding, ParseError>)
        ensures
            match binding_of(views(keys@), command@) {
                Ok(view) => r matches Ok(binding) && binding@ == view,
                Err(view) => r matches Err(error) && error@ == view,
            },
    {
        let mut events: Vec<KeyEvent> = Vec::new();
        let mut i: usize = 0;
        while i < keys.len()
            invariant
                i <= keys.len(),
                events.len() == i,
                forall|j: int|
                    0 <= j < i ==> key_event_of(#[trigger] views(keys@)[j]) == Some(events@[j]),
            decreases keys.len() - i,
        {
            match KeyEvent::parse(keys[i].as_str()) {
                Ok(event) => {
                    events.push(event);
                },
                Err(error) => {
                    proof {
                        lemma_first_invalid_key(views(keys@));
                        assert(key_event_of(views(keys@)[i as int]) is None);
                    }
                    return Err(error);
                },
            }
            i += 1;
        }
        proof {
            lemma_first_invalid_key(views(keys@));
            assert(events@ =~= key_events_of(views(keys@)));
        }
        match Command::from_str(command) {
            Ok(command) => Ok(CustomKeyBinding { keys: events, command }),
            Err(error) => Err(error),
        }
    }
}

/// The tick rate of the terminal where none is configured, in
/// milliseconds.
pub const DEFAULT_TICK_RATE: u64 = 250;

/// The utility for file selection where none is configured.
pub const DEFAULT_FILE_EXPLORER: &'static str = "xplr";

/// The home directory of GnuPG where none is configured.
pub const DEFAULT_HOMEDIR: &'static str = "~/.gnupg";

/// The output directory where none is configured.
pub const DEFAULT_OUTDIR: &'static str = "~/.gnupg";

/// General configuration.
#[derive(Debug)]
pub struct GeneralConfig {
    /// Whether the splash screen is shown.
    pub splash: Option<bool>,
    /// The tick rate of the terminal.
    pub tick_rate: Option<u64>,
    /// The accent color.
    pub color: Option<String>,
    /// The style.
    pub style: Option<String>,
    /// The utility for file selection.
    pub file_explorer: Option<String>,
    /// The detail level for the keys.
    pub detail_level: Option<KeyDetail>,
    /// Custom key bindings.
    pub key_bindings: Option<Vec<CustomKeyBinding>>,
    /// File to save the logs.
    pub log_file: Option<String>,
}

/// GnuPG configuration.
#[derive(Debug)]
pub struct GpgConfig {
    /// Whether output is ASCII armored.
    pub armor: Option<bool>,
    /// The home directory of GnuPG.
    pub homedir: Option<String>,
    /// The output directory.
    pub outdir: Option<String>,
    /// The template for the output file name.
    pub outfile: Option<String>,
    /// The default key to sign with.
    pub default_key: Option<String>,
}

/// Application configuration.
#[derive(Debug)]
pub struct Config {
    /// General configuration.
    pub general: Option<GeneralConfig>,
    /// GnuPG configuration.
    pub gpg: Option<GpgConfig>,
}

/// What the general configuration says of the arguments.
pub struct GeneralConfigView {
    pub splash: Option<bool>,
    pub tick_rate: Option<u64>,
    pub color: Option<Seq<char>>,
    pub style: Option<Seq<char>>,
    pub file_explorer: Option<Seq<char>>,
    pub detail_level: Option<KeyDetail>,
    pub log_file: Option<Seq<char>>,
}

/// What the GnuPG configuration says.
pub struct GpgConfigView {
    pub armor: Option<bool>,
    pub homedir: Option<Seq<char>>,
    pub outdir: Option<Seq<char>>,
    pub outfile: Option<Seq<char>>,
    pub default_key: Option<Seq<char>>,
}

/// What the configuration says of the arguments.
pub struct ConfigView {
    pub general: Option<GeneralConfigView>,
    pub gpg: Option<GpgConfigView>,
}

impl View for GeneralConfig {
    type V = GeneralConfigView;

    open spec fn view(&self) -> GeneralConfigView {
        GeneralConfigView {
            splash: self.splash,
            tick_rate: self.tick_rate,
            color: text_view(self.color),
            style: text_view(self.style),
            file_explorer: text_view(self.file_explorer),
            detail_level: self.detail_level,
            log_file: text_view(self.log_file),
        }
    }
}

impl View for GpgConfig {
    type V = GpgConfigView;

    open spec fn view(&self) -> GpgConfigView {
        GpgConfigView {
            armor: self.armor,
            homedir: text_view(self.homedir),
            outdir: text_view(self.outdir),
            outfile: text_view(self.outfile),
            default_key: text_view(self.default_key),
        }
    }
}

impl View for Config {
    type V = ConfigView;

    open spec fn view(&self) -> ConfigView {
        ConfigView {
            general: match self.general {
                Some(general) => Some(general@),
                None => None,
            },
            gpg: match self.gpg {
                Some(gpg) => Some(gpg@),
                None => None,
            },
        }
    }
}

impl Default for Config {
    fn default() -> (r: Self)
        ensures
            r@ == (ConfigView { general: None, gpg: None }),
    {
        Config { general: None, gpg: None }
    }
}

/// A value that may be missing, or another in its place.
pub open spec fn or_else<T>(value: Option<T>, default: T) -> T {
    match value {
        Some(v) => v,
        None => default,
    }
}

/// The arguments after the GnuPG part of the configuration was applied.
pub open spec fn with_gpg_config(args: ArgsView, gpg: Option<GpgConfigView>) -> ArgsView {
    match gpg {
        Some(gpg) => ArgsView {
            armor: or_else(gpg.armor, false),
            homedir: gpg.homedir,
            outdir: gpg.outdir,
            outfile: or_else(gpg.outfile, args.outfile),
            default_key: match gpg.default_key {
                Some(key) => Some(key),
                None => args.default_key,
            },
            ..args
        },
        None => ArgsView {
            armor: false,
            homedir: Some(DEFAULT_HOMEDIR@),
            outdir: Some(DEFAULT_OUTDIR@),
            ..args
        },
    }
}

/// The arguments after the general part of the configuration was
/// applied.
pub open spec fn with_general_config(args: ArgsView, general: Option<GeneralConfigView>)
    -> ArgsView {
    match general {
        Some(general) => ArgsView {
            splash: or_else(general.splash, false),
            tick_rate: or_else(general.tick_rate, DEFAULT_TICK_RATE),
            color: match general.color {
                Some(color) => color_of(lowercase(color), hex_rgb("#"@ + color)),
                None => TuiColor::Gray,
            },
            style: match general.style {
                Some(style) => or_else(style_of(ascii_lowered(style)), Style::Plain),
                None => Style::Plain,
            },
            file_explorer: or_else(general.file_explorer, DEFAULT_FILE_EXPLORER@),
            detail_level: or_else(general.detail_level, KeyDetail::Minimum),
            log_file: match general.log_file {
                Some(file) => Some(file),
                None => args.log_file,
            },
            ..args
        },
        None => ArgsView {
            splash: false,
            tick_rate: DEFAULT_TICK_RATE,
            color: TuiColor::Gray,
            style: Style::Plain,
            file_explorer: DEFAULT_FILE_EXPLORER@,
            ..args
        },
    }
}

/// The arguments after the configuration was applied: what the
/// configuration holds replaces the arguments, and where a part of the
/// configuration is missing its defaults do.
pub open spec fn updated_args(config: ConfigView, args: ArgsView) -> ArgsView {
    with_general_config(with_gpg_config(args, config.gpg), config.general)
}

impl Config {
    /// Update the command-line arguments based on configuration.
    pub fn update_args(&self, args: Args) -> (r: Args)
        ensures
            r@ == updated_args(self@, args@),
    {
        let mut args = args;
        match &self.gpg {
            Some(gpg) => {
                args.armor = match gpg.armor {
                    Some(armor) => armor,
                    None => false,
                };
                args.homedir = copy_text(&gpg.homedir);
                args.outdir = copy_text(&gpg.outdir);
                match &gpg.outfile {
                    Some(outfile) => {
                        args.outfile = outfile.clone();
                    },
                    None => {},
                }
                match &gpg.default_key {
                    Some(key) => {
                        args.default_key = Some(key.clone());
                    },
                    None => {},
                }
            },
            None => {
                args.armor = false;
                args.homedir = Some(copy_of(DEFAULT_HOMEDIR));
                args.outdir = Some(copy_of(DEFAULT_OUTDIR));
            },
        }
        match &self.general {
            Some(general) => {
                args.splash = match general.splash {
                    Some(splash) => splash,
                    None => false,
                };
                args.tick_rate = match general.tick_rate {
                    Some(rate) => rate,
                    None => DEFAULT_TICK_RATE,
                };
                args.color = match &general.color {
                    Some(color) => Color::from(color.as_str()),
                    None => Color::default(),
                };
                args.style = match &general.style {
                    Some(style) => match Style::from_str_ignore_case(style.as_str()) {
                        Some(style) => style,
                        None => Style::Plain,
                    },
                    None => Style::Plain,
                };
                args.file_explorer = match &general.file_explorer {
                    Some(explorer) => explorer.clone(),
                    None => copy_of(DEFAULT_FILE_EXPLORER),
                };
                args.detail_level = match general.detail_level {
                    Some(detail) => detail,
                    None => KeyDetail::Minimum,
                };
                match &general.log_file {
                    Some(file) => {
                        args.log_file = Some(file.clone());
                    },
                    None => {},
                }
            },
            None => {
                args.splash = false;
                args.tick_rate = DEFAULT_TICK_RATE;
                args.color = Color::default();
                args.style = Style::Plain;
                args.file_explorer = copy_of(DEFAULT_FILE_EXPLORER);
            },
        }
        args
    }
}

} // verus!
