//! The prompt: the line in which the user types commands and searches, in
//! which messages are shown, and in which a command waits to be confirmed.
//!
//! The prompt is idle while its text is empty. A text that starts with `:`
//! is command input, one that starts with `/` a search. A message is a
//! text with the time at which it was set; it expires after a while.

use crate::app::command::{description, Command, CommandView};
use crate::app::output::OutputType;
use crate::text::{chars_of, concat, first_char, string_of_range, views};
use vstd::prelude::*;

verus! {

/// Prefix character for indicating command input.
pub const COMMAND_PREFIX: char = ':';

/// Prefix character for indicating search input.
pub const SEARCH_PREFIX: char = '/';

/// Max duration of prompt messages, in milliseconds.
pub const MESSAGE_DURATION: u64 = 1750;

/// Application prompt which is responsible for
/// handling user input ([`text`]), showing the
/// output of commands and ask for confirmation.
///
/// [`text`]: Prompt::text
#[derive(Debug)]
pub struct Prompt {
    /// Input/output text.
    pub text: String,
    /// Output type.
    pub output_type: OutputType,
    /// Time at which the output message was set, in milliseconds.
    pub clock: Option<u64>,
    /// Command that will be confirmed for execution.
    pub command: Option<Command>,
    /// Command history.
    pub history: Vec<String>,
    /// Index of the selected command from history.
    pub history_index: usize,
}

/// What a prompt holds.
pub struct PromptView {
    pub text: Seq<char>,
    pub output_type: OutputType,
    pub clock: Option<u64>,
    pub command: Option<CommandView>,
    pub history: Seq<Seq<char>>,
    pub history_index: nat,
}

impl View for Prompt {
    type V = PromptView;

    open spec fn view(&self) -> PromptView {
        PromptView {
            text: self.text@,
            output_type: self.output_type,
            clock: self.clock,
            command: match self.command {
                Some(command) => Some(command@),
                None => None,
            },
            history: views(self.history@),
            history_index: self.history_index as nat,
        }
    }
}

impl PromptView {
    /// The prompt with nothing in it but its history.
    pub open spec fn cleared(self) -> PromptView {
        PromptView {
            text: Seq::empty(),
            output_type: OutputType::Silent,
            clock: None,
            command: None,
            history: self.history,
            history_index: 0,
        }
    }

    /// Whether the prompt takes input: it has a text that is neither a
    /// message nor a question.
    pub open spec fn is_enabled(self) -> bool {
        self.text.len() > 0 && self.clock is None && self.command is None
    }

    /// Whether the text is command input.
    pub open spec fn is_command_input(self) -> bool {
        first_char(self.text) == Some(COMMAND_PREFIX)
    }

    /// Whether the text is a search.
    pub open spec fn is_search(self) -> bool {
        first_char(self.text) == Some(SEARCH_PREFIX)
    }

    /// The prompt after input was enabled with `prefix`: a text in
    /// progress keeps what follows its first character, anything else is
    /// replaced by the prefix alone.
    pub open spec fn enabled(self, prefix: char) -> PromptView {
        PromptView {
            text: if self.text.len() == 0 || self.clock is Some {
                seq![prefix]
            } else {
                seq![prefix] + self.text.skip(1)
            },
            ..self.cleared()
        }
    }

    /// The prompt with a message of the given type, set at `now`.
    pub open spec fn with_output(self, output_type: OutputType, message: Seq<char>, now: u64)
        -> PromptView {
        PromptView { text: message, output_type, clock: Some(now), ..self }
    }

    /// The prompt that asks to confirm `command`, set at `now`.
    pub open spec fn with_command(self, command: CommandView, now: u64) -> PromptView {
        PromptView {
            text: "press 'y' to "@ + description(command),
            output_type: OutputType::Action,
            clock: Some(now),
            command: Some(command),
            ..self
        }
    }

    /// Whether the history cursor lies inside the history. The operations
    /// of the prompt keep it there.
    pub open spec fn wf(self) -> bool {
        self.history_index <= self.history.len()
    }

    /// The prompt after moving towards the newest entry of the history;
    /// past the newest entry stands the bare command prefix.
    pub open spec fn after_next(self) -> PromptView {
        if self.history_index > 1 {
            PromptView {
                text: if self.history_index - 1 <= self.history.len() {
                    self.history[self.history.len() - (self.history_index - 1)]
                } else {
                    self.text
                },
                history_index: (self.history_index - 1) as nat,
                ..self
            }
        } else if self.history_index == 1 {
            PromptView { text: seq![COMMAND_PREFIX], history_index: 0, ..self }
        } else {
            self
        }
    }

    /// The prompt after moving towards the oldest entry of the history.
    pub open spec fn after_previous(self) -> PromptView {
        if self.history.len() > self.history_index {
            PromptView {
                text: self.history[self.history.len() - (self.history_index + 1)],
                history_index: self.history_index + 1,
                ..self
            }
        } else {
            self
        }
    }

    /// Whether a message that was set has expired at `now`.
    pub open spec fn is_expired(self, now: u64) -> bool {
        match self.clock {
            Some(set_at) => now - set_at > MESSAGE_DURATION && self.command is None,
            None => false,
        }
    }
}

impl Default for Prompt {
    fn default() -> (r: Self)
        ensures
            r@ == (PromptView {
                text: Seq::empty(),
                output_type: OutputType::Silent,
                clock: None,
                command: None,
                history: Seq::empty(),
                history_index: 0,
            }),
    {
        let r = Prompt {
            text: String::new(),
            output_type: OutputType::Silent,
            clock: None,
            command: None,
            history: Vec::new(),
            history_index: 0,
        };
        assert(views(r.history@) == Seq::<Seq<char>>::empty());
        r
    }
}

impl Prompt {
    /// Enables the prompt.
    ///
    /// Available prefixes:
    /// * `:`: command input
    /// * `/`: search
    pub fn enable(&mut self, prefix: char)
        ensures
            final(self)@ == old(self)@.enabled(prefix),
    {
        let mut text = String::new();
        text.push(prefix);
        assert(text@ == seq![prefix]);
        if !(self.text.as_str().unicode_len() == 0 || self.clock.is_some()) {
            let chars = chars_of(self.text.as_str());
            let rest = string_of_range(&chars, 1, chars.len());
            assert(chars@.subrange(1, chars.len() as int) == chars@.skip(1));
            text.append(rest.as_str());
        }
        self.text = text;
        self.output_type = OutputType::Silent;
        self.clock = None;
        self.command = None;
        self.history_index = 0;
    }

    /// Checks if the prompt is enabled.
    pub fn is_enabled(&self) -> (r: bool)
        ensures
            r == self@.is_enabled(),
    {
        self.text.as_str().unicode_len() != 0 && self.clock.is_none() && self.command.is_none()
    }

    /// Enables the command input.
    pub fn enable_command_input(&mut self)
        ensures
            final(self)@ == old(self)@.enabled(COMMAND_PREFIX),
    {
        self.enable(COMMAND_PREFIX);
    }

    /// Checks if the command input is enabled.
    pub fn is_command_input_enabled(&self) -> (r: bool)
        ensures
            r == self@.is_command_input(),
    {
        crate::text::starts_with_char(self.text.as_str(), COMMAND_PREFIX)
    }

    /// Enables the search.
    pub fn enable_search(&mut self)
        ensures
            final(self)@ == old(self)@.enabled(SEARCH_PREFIX),
    {
        self.enable(SEARCH_PREFIX);
    }

    /// Checks if the search is enabled.
    pub fn is_search_enabled(&self) -> (r: bool)
        ensures
            r == self@.is_search(),
    {
        crate::text::starts_with_char(self.text.as_str(), SEARCH_PREFIX)
    }

    /// Sets the output message; `now` is the time in milliseconds at
    /// which it is set.
    pub fn set_output(&mut self, output: (OutputType, String), now: u64)
        ensures
            final(self)@ == old(self)@.with_output(output.0, output.1@, now),
    {
        let (output_type, message) = output;
        self.output_type = output_type;
        self.text = message;
        self.clock = Some(now);
    }

    /// Sets the command that will be asked to confirm; `now` is the time
    /// in milliseconds at which the question is asked.
    pub fn set_command(&mut self, command: Command, now: u64)
        ensures
            final(self)@ == old(self)@.with_command(command@, now),
    {
        let described = command.to_string();
        self.text = concat("press 'y' to ", described.as_str());
        self.output_type = OutputType::Action;
        self.command = Some(command);
        self.clock = Some(now);
    }

    /// Select the next command.
    pub fn next(&mut self)
        ensures
            final(self)@ == old(self)@.after_next(),
            old(self)@.wf() ==> final(self)@.wf(),
    {
        if self.history_index > 1 {
            self.history_index -= 1;
            if self.history_index <= self.history.len() {
                self.text = self.history[self.history.len() - self.history_index].clone();
            }
        } else if self.history_index == 1 {
            let mut text = String::new();
            text.push(COMMAND_PREFIX);
            assert(text@ == seq![COMMAND_PREFIX]);
            self.text = text;
            self.history_index = 0;
        }
    }

    /// Select the previous command.
    pub fn previous(&mut self)
        ensures
            final(self)@ == old(self)@.after_previous(),
            old(self)@.wf() ==> final(self)@.wf(),
    {
        if self.history.len() > self.history_index {
            self.text = self.history[self.history.len() - (self.history_index + 1)].clone();
            self.history_index += 1;
        }
    }

    /// Clears the prompt.
    pub fn clear(&mut self)
        ensures
            final(self)@ == old(self)@.cleared(),
    {
        self.text = String::new();
        self.output_type = OutputType::Silent;
        self.clock = None;
        self.command = None;
        self.history_index = 0;
    }

    /// Whether the message of the prompt has expired at `now`: it was set
    /// more than [`MESSAGE_DURATION`] ago and asks no question.
    pub fn is_expired(&self, now: u64) -> (r: bool)
        ensures
            r == self@.is_expired(now),
    {
        match self.clock {
            Some(set_at) => now > set_at && now - set_at > MESSAGE_DURATION
                && self.command.is_none(),
            None => false,
        }
    }

    /// A copy of the prompt that holds the same.
    pub fn duplicate(&self) -> (r: Prompt)
        ensures
            r@ == self@,
    {
        Prompt {
            text: self.text.clone(),
            output_type: self.output_type,
            clock: self.clock,
            command: match &self.command {
                Some(command) => Some(command.duplicate()),
                None => None,
            },
            history: crate::text::copy_strings(&self.history),
            history_index: self.history_index,
        }
    }
}

impl Clone for Prompt {
    fn clone(&self) -> (r: Self)
        ensures
            r@ == self@,
    {
        self.duplicate()
    }
}

/// At most one of command input, search, question and message is active:
/// enabling input leaves neither a message nor a question, and a message
/// or a question disables input. Clearing leaves the prompt idle.
pub proof fn lemma_prompt_states_exclude(prompt: PromptView, prefix: char)
    ensures
        prompt.enabled(prefix).is_enabled(),
        prompt.enabled(prefix).clock is None,
        prompt.enabled(prefix).command is None,
        prompt.enabled(COMMAND_PREFIX).is_command_input(),
        !prompt.enabled(COMMAND_PREFIX).is_search(),
        prompt.enabled(SEARCH_PREFIX).is_search(),
        !prompt.enabled(SEARCH_PREFIX).is_command_input(),
        prompt.clock is Some ==> !prompt.is_enabled(),
        prompt.command is Some ==> !prompt.is_enabled(),
        !prompt.cleared().is_enabled(),
        !(prompt.is_command_input() && prompt.is_search()),
{
}

/// Toggling between command input and search keeps the text in progress:
/// only the first character changes.
pub proof fn lemma_prompt_toggle_keeps_text(prompt: PromptView, prefix: char)
    requires
        prompt.is_enabled(),
    ensures
        prompt.enabled(prefix).text.len() == prompt.text.len(),
        prompt.enabled(prefix).text.skip(1) == prompt.text.skip(1),
        prompt.enabled(prefix).text[0] == prefix,
{
    assert(prompt.enabled(prefix).text.skip(1) =~= prompt.text.skip(1));
}

} // verus!
