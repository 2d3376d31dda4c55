//! The flags of the application.

use crate::app::selection::Selection;
use crate::app::style::Style;
use crate::args::{Args, ArgsView};
use crate::gpg::key::{text_view, KeyDetail};
use crate::text::copy_of;
use crate::widget::style::TuiColor;
use vstd::prelude::*;

verus! {

/// Application states (flags) for managing the launcher.
#[derive(Debug)]
pub struct State {
    /// Is app running?
    pub running: bool,
    /// Style of the app.
    pub style: Style,
    /// Accent color of the app.
    pub color: TuiColor,
    /// Is the options menu (popup) showing?
    pub show_options: bool,
    /// Is the splash screen showing?
    pub show_splash: bool,
    /// Is the selection mode enabled?
    pub select: Option<Selection>,
    /// File explorer to run.
    pub file_explorer: String,
    /// Detail level for the keys table.
    pub detail_level: KeyDetail,
    /// Exit message of the app.
    pub exit_message: Option<String>,
}

/// What the flags of the application say.
pub struct StateView {
    pub running: bool,
    pub style: Style,
    pub color: TuiColor,
    pub show_options: bool,
    pub show_splash: bool,
    pub select: Option<Selection>,
    pub file_explorer: Seq<char>,
    pub detail_level: KeyDetail,
    pub exit_message: Option<Seq<char>>,
}

impl View for State {
    type V = StateView;

    open spec fn view(&self) -> StateView {
        StateView {
            running: self.running,
            style: self.style,
            color: self.color,
            show_options: self.show_options,
            show_splash: self.show_splash,
            select: self.select,
            file_explorer: self.file_explorer@,
            detail_level: self.detail_level,
            exit_message: text_view(self.exit_message),
        }
    }
}

impl StateView {
    /// The flags of an application that was just started.
    pub open spec fn initial() -> StateView {
        StateView {
            running: true,
            style: Style::Plain,
            color: TuiColor::Gray,
            show_options: false,
            show_splash: false,
            select: None,
            file_explorer: "xplr"@,
            detail_level: KeyDetail::Minimum,
            exit_message: None,
        }
    }

    /// The flags after a refresh: all as at the start, but for the
    /// style, the color and the level of detail.
    pub open spec fn refreshed(self) -> StateView {
        StateView {
            style: self.style,
            color: self.color,
            detail_level: self.detail_level,
            ..Self::initial()
        }
    }
}

impl Default for State {
    fn default() -> (r: Self)
        ensures
            r@ == StateView::initial(),
    {
        Self {
            running: true,
            style: Style::Plain,
            color: TuiColor::Gray,
            show_options: false,
            show_splash: false,
            select: None,
            file_explorer: copy_of("xplr"),
            detail_level: KeyDetail::Minimum,
            exit_message: None,
        }
    }
}

impl State {
    /// Reverts back the values to default.
    pub fn refresh(&mut self)
        ensures
            final(self)@ == old(self)@.refreshed(),
    {
        let style = self.style;
        let detail_level = self.detail_level;
        let color = self.color;
        *self = Self::default();
        self.style = style;
        self.detail_level = detail_level;
        self.color = color;
    }
}

impl Clone for State {
    fn clone(&self) -> (r: Self)
        ensures
            r@ == self@,
    {
        Self {
            running: self.running,
            style: self.style,
            color: self.color,
            show_options: self.show_options,
            show_splash: self.show_splash,
            select: self.select,
            file_explorer: self.file_explorer.clone(),
            detail_level: self.detail_level,
            exit_message: crate::gpg::key::copy_text(&self.exit_message),
        }
    }
}

impl StateView {
    /// The flags that the arguments of the command line ask for.
    pub open spec fn of_args(args: ArgsView) -> StateView {
        StateView {
            style: args.style,
            color: args.color,
            show_splash: args.splash,
            select: args.select,
            file_explorer: args.file_explorer,
            detail_level: args.detail_level,
            ..Self::initial()
        }
    }
}

impl State {
    /// The flags that the arguments of the command line ask for.
    pub fn from(args: &Args) -> (r: State)
        ensures
            r@ == StateView::of_args(args@),
    {
        State {
            running: true,
            style: args.style,
            color: args.color.get(),
            show_options: false,
            show_splash: args.splash,
            select: args.select,
            file_explorer: args.file_explorer.clone(),
            detail_level: args.detail_level,
            exit_message: None,
        }
    }
}

} // verus!
