//! The arguments of the command line.

use crate::app::selection::Selection;
use crate::app::style::Style;
use crate::gpg::key::{copy_text, text_view, KeyDetail};
use crate::widget::style::{Color, TuiColor};
use vstd::prelude::*;

verus! {

/// The arguments of the command line.
#[derive(Debug)]
pub struct Args {
    /// Enables ASCII armored output.
    pub armor: bool,
    /// Shows the splash screen on startup.
    pub splash: bool,
    /// Sets the configuration file.
    pub config: Option<String>,
    /// Sets the GnuPG home directory.
    pub homedir: Option<String>,
    /// Sets the output directory.
    pub outdir: Option<String>,
    /// Sets the template for the output file name.
    pub outfile: String,
    /// Sets the default key to sign with.
    pub default_key: Option<String>,
    /// Sets the tick rate of the terminal.
    pub tick_rate: u64,
    /// Sets the accent color of the terminal.
    pub color: Color,
    /// Sets the style of the terminal.
    pub style: Style,
    /// Sets the utility for file selection.
    pub file_explorer: String,
    /// Sets the detail level for the keys.
    pub detail_level: KeyDetail,
    /// Sets the file to save the logs.
    pub log_file: Option<String>,
    /// Enables the selection mode.
    pub select: Option<Selection>,
}

/// What the arguments say.
pub struct ArgsView {
    pub armor: bool,
    pub splash: bool,
    pub config: Option<Seq<char>>,
    pub homedir: Option<Seq<char>>,
    pub outdir: Option<Seq<char>>,
    pub outfile: Seq<char>,
    pub default_key: Option<Seq<char>>,
    pub tick_rate: u64,
    pub color: TuiColor,
    pub style: Style,
    pub file_explorer: Seq<char>,
    pub detail_level: KeyDetail,
    pub log_file: Option<Seq<char>>,
    pub select: Option<Selection>,
}

impl View for Args {
    type V = ArgsView;

    open spec fn view(&self) -> ArgsView {
        ArgsView {
            armor: self.armor,
            splash: self.splash,
            config: text_view(self.config),
            homedir: text_view(self.homedir),
            outdir: text_view(self.outdir),
            outfile: self.outfile@,
            default_key: text_view(self.default_key),
            tick_rate: self.tick_rate,
            color: self.color.inner,
            style: self.style,
            file_explorer: self.file_explorer@,
            detail_level: self.detail_level,
            log_file: text_view(self.log_file),
            select: self.select,
        }
    }
}

impl ArgsView {
    /// The arguments with nothing given.
    pub open spec fn empty() -> ArgsView {
        ArgsView {
            armor: false,
            splash: false,
            config: None,
            homedir: None,
            outdir: None,
            outfile: Seq::empty(),
            default_key: None,
            tick_rate: 0,
            color: TuiColor::Gray,
            style: Style::Plain,
            file_explorer: Seq::empty(),
            detail_level: KeyDetail::Minimum,
            log_file: None,
            select: None,
        }
    }
}

impl Default for Args {
    fn default() -> (r: Self)
        ensures
            r@ == ArgsView::empty(),
    {
        Args {
            armor: false,
            splash: false,
            config: None,
            homedir: None,
            outdir: None,
            outfile: String::new(),
            default_key: None,
            tick_rate: 0,
            color: Color::default(),
            style: Style::Plain,
            file_explorer: String::new(),
            detail_level: KeyDetail::Minimum,
            log_file: None,
            select: None,
        }
    }
}

impl Clone for Args {
    fn clone(&self) -> (r: Self)
        ensures
            r@ == self@,
    {
        Args {
            armor: self.armor,
            splash: self.splash,
            config: copy_text(&self.config),
            homedir: copy_text(&self.homedir),
            outdir: copy_text(&self.outdir),
            outfile: self.outfile.clone(),
            default_key: copy_text(&self.default_key),
            tick_rate: self.tick_rate,
            color: self.color,
            style: self.style,
            file_explorer: self.file_explorer.clone(),
            detail_level: self.detail_level,
            log_file: copy_text(&self.log_file),
            select: self.select,
        }
    }
}

} // verus!
