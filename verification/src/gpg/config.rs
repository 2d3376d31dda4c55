//! The settings of the key store as the interface keeps them.

use crate::app::launcher::join_path;
use crate::app::transition::joined_path;
use crate::args::{Args, ArgsView};
use crate::gpg::key::{copy_text, text_view};
use crate::text::{copy_of, debug_quote, debug_quoted};
use vstd::prelude::*;

verus! {

/// Settings of the key store.
#[derive(Debug)]
pub struct GpgConfig {
    /// Flag for using ASCII armored output.
    pub armor: bool,
    /// Default key for signing operations.
    pub default_key: Option<String>,
    /// Home directory.
    pub home_dir: String,
    /// Output directory.
    pub output_dir: String,
}

/// What the settings of the key store say.
pub struct GpgConfigView {
    pub armor: bool,
    pub default_key: Option<Seq<char>>,
    pub home_dir: Seq<char>,
    pub output_dir: Seq<char>,
}

impl View for GpgConfig {
    type V = GpgConfigView;

    open spec fn view(&self) -> GpgConfigView {
        GpgConfigView {
            armor: self.armor,
            default_key: text_view(self.default_key),
            home_dir: self.home_dir@,
            output_dir: self.output_dir@,
        }
    }
}

impl Clone for GpgConfig {
    fn clone(&self) -> (r: Self)
        ensures
            r@ == self@,
    {
        GpgConfig {
            armor: self.armor,
            default_key: copy_text(&self.default_key),
            home_dir: self.home_dir.clone(),
            output_dir: self.output_dir.clone(),
        }
    }
}

/// What the library of the key store tells of itself and of its engine.
#[derive(Debug)]
pub struct EngineInfo {
    /// Version of the library.
    pub library_version: String,
    /// Protocol of the engine.
    pub protocol: String,
    /// Path of the engine.
    pub path: Option<String>,
    /// Version of the engine.
    pub version: Option<String>,
    /// Version of the engine that the library requires.
    pub required_version: Option<String>,
    /// Data directory of the engine.
    pub data_dir: Option<String>,
}

/// What is told of the library and of its engine.
pub struct EngineInfoView {
    pub library_version: Seq<char>,
    pub protocol: Seq<char>,
    pub path: Option<Seq<char>>,
    pub version: Option<Seq<char>>,
    pub required_version: Option<Seq<char>>,
    pub data_dir: Option<Seq<char>>,
}

impl View for EngineInfo {
    type V = EngineInfoView;

    open spec fn view(&self) -> EngineInfoView {
        EngineInfoView {
            library_version: self.library_version@,
            protocol: self.protocol@,
            path: text_view(self.path),
            version: text_view(self.version),
            required_version: text_view(self.required_version),
            data_dir: text_view(self.data_dir),
        }
    }
}

/// A text, or a question mark where it is missing.
pub open spec fn or_question(text: Option<Seq<char>>) -> Seq<char> {
    match text {
        Some(s) => s,
        None => "?"@,
    }
}

impl GpgConfigView {
    /// The settings that the arguments of the command line ask for. The
    /// home directory is the given one where the arguments name none, and
    /// keys are put out below it where the arguments name no directory.
    pub open spec fn of_args(args: ArgsView, default_home: Seq<char>) -> GpgConfigView {
        let home_dir = match args.homedir {
            Some(dir) => dir,
            None => default_home,
        };
        GpgConfigView {
            armor: args.armor,
            default_key: args.default_key,
            home_dir,
            output_dir: match args.outdir {
                Some(dir) => dir,
                None => joined_path(home_dir, "out"@),
            },
        }
    }

    /// The information about the key store that the help tab shows, one
    /// indented line for each fact.
    pub open spec fn info(self, engine: EngineInfoView) -> Seq<char> {
        "\n\t\t\t\tGPGME version: "@ + engine.library_version + "\n\t\t\t\tGPGME protocol: "@ + engine.protocol
            + "\n\t\t\t\tGPGME engine: \""@ + or_question(engine.path) + "\"\n\t\t\t\tGPGME engine version: "@
            + or_question(engine.version) + " (>"@ + or_question(engine.required_version)
            + ")\n\t\t\t\tGnuPG home directory: "@ + debug_quoted(self.home_dir)
            + "\n\t\t\t\tGnuPG data directory: \""@ + or_question(engine.data_dir)
            + "\"\n\t\t\t\tOutput directory: "@ + debug_quoted(self.output_dir)
            + "\n\t\t\t\tDefault signing key: "@ + (match self.default_key {
            Some(key) => key,
            None => "not specified"@,
        }) + "\n\t\t\t\t"@
    }
}

fn text_or_question(text: &Option<String>) -> (r: String)
    ensures
        r@ == or_question(text_view(*text)),
{
    match text {
        Some(s) => s.clone(),
        None => copy_of("?"),
    }
}

impl GpgConfig {
    /// Constructs a new instance of `GpgConfig` from the arguments of the
    /// command line; `default_home` is the home directory that the key
    /// store uses where none is given.
    pub fn new(args: &Args, default_home: &str) -> (r: Self)
        ensures
            r@ == GpgConfigView::of_args(args@, default_home@),
    {
        let home_dir = match &args.homedir {
            Some(dir) => dir.clone(),
            None => copy_of(default_home),
        };
        let output_dir = match &args.outdir {
            Some(dir) => dir.clone(),
            None => join_path(home_dir.as_str(), "out"),
        };
        Self { armor: args.armor, default_key: copy_text(&args.default_key), home_dir, output_dir }
    }

    /// Returns general information about the library and its engine.
    pub fn get_info(&self, engine: &EngineInfo) -> (r: String)
        ensures
            r@ == self@.info(engine@),
    {
        let mut out = copy_of("\n\t\t\t\tGPGME version: ");
        out.append(engine.library_version.as_str());
        out.append("\n\t\t\t\tGPGME protocol: ");
        out.append(engine.protocol.as_str());
        out.append("\n\t\t\t\tGPGME engine: \"");
        out.append(text_or_question(&engine.path).as_str());
        out.append("\"\n\t\t\t\tGPGME engine version: ");
        out.append(text_or_question(&engine.version).as_str());
        out.append(" (>");
        out.append(text_or_question(&engine.required_version).as_str());
        out.append(")\n\t\t\t\tGnuPG home directory: ");
        out.append(debug_quote(self.home_dir.as_str()).as_str());
        out.append("\n\t\t\t\tGnuPG data directory: \"");
        out.append(text_or_question(&engine.data_dir).as_str());
        out.append("\"\n\t\t\t\tOutput directory: ");
        out.append(debug_quote(self.output_dir.as_str()).as_str());
        out.append("\n\t\t\t\tDefault signing key: ");
        match &self.default_key {
            Some(key) => out.append(key.as_str()),
            None => out.append("not specified"),
        }
        out.append("\n\t\t\t\t");
        assert(out@ =~= self@.info(engine@));
        out
    }
}

} // verus!
