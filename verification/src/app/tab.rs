//! The tabs of the application.

use crate::app::command::{Command, CommandView};
use crate::gpg::key::KeyType;
use vstd::prelude::*;

verus! {

/// Application tabs.
#[derive(Copy, Clone, Debug, PartialEq, Eq, Structural)]
pub enum Tab {
    /// Show help.
    Help,
    /// Show keys in the GPG keyring.
    Keys(KeyType),
}

/// The tab that follows a tab.
pub open spec fn next_tab(tab: Tab) -> Tab {
    match tab {
        Tab::Keys(KeyType::Public) => Tab::Keys(KeyType::Secret),
        _ => Tab::Keys(KeyType::Public),
    }
}

/// The tab that precedes a tab.
pub open spec fn previous_tab(tab: Tab) -> Tab {
    match tab {
        Tab::Keys(KeyType::Secret) => Tab::Keys(KeyType::Public),
        _ => Tab::Keys(KeyType::Secret),
    }
}

/// The command that opens a tab.
pub open spec fn tab_command(tab: Tab) -> CommandView {
    match tab {
        Tab::Keys(key_type) => CommandView::ListKeys(key_type),
        Tab::Help => CommandView::ShowHelp,
    }
}

impl Tab {
    /// Returns the corresponding application command.
    pub fn get_command(&self) -> (r: Command)
        ensures
            r@ == tab_command(*self),
    {
        match self {
            Self::Keys(key_type) => Command::ListKeys(*key_type),
            Self::Help => Command::ShowHelp,
        }
    }

    /// Returns the next tab.
    pub fn next(&self) -> (r: Self)
        ensures
            r == next_tab(*self),
    {
        match self {
            Self::Keys(KeyType::Public) => Self::Keys(KeyType::Secret),
            _ => Self::Keys(KeyType::Public),
        }
    }

    /// Returns the previous tab.
    pub fn previous(&self) -> (r: Self)
        ensures
            r == previous_tab(*self),
    {
        match self {
            Self::Keys(KeyType::Secret) => Self::Keys(KeyType::Public),
            _ => Self::Keys(KeyType::Secret),
        }
    }
}

/// Moving between the two key tabs goes back and forth, and from the help
/// tab either direction leads to a key tab.
pub proof fn lemma_tabs_cycle(tab: Tab)
    ensures
        next_tab(tab) is Keys,
        previous_tab(tab) is Keys,
        tab is Keys ==> previous_tab(next_tab(tab)) == tab,
        tab is Keys ==> next_tab(previous_tab(tab)) == tab,
{
}

} // verus!
