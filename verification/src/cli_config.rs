//! The settings of the command-line interface that a user can change.
use vstd::prelude::*;

verus! {

/// How verbose command answers are.
#[derive(PartialEq, Eq, Structural, Clone, Copy, Debug)]
pub enum AnswerLength {
    Short,
    Long,
}

impl Default for AnswerLength {
    fn default() -> (r: Self)
        ensures
            r == AnswerLength::Long,
    {
        AnswerLength::Long
    }
}

/// ANSI colour escape sequences used by the interface.
pub struct AnsiColor;

impl AnsiColor {
    /// Muted green, the prompt character colour.
    pub const FALLOUT_GREEN: &'static str = "\x1b[38;5;106m";

    /// Dark green, the answer colour.
    pub const FALLOUT_DARK_GREEN: &'static str = "\x1b[38;5;28m";

    /// Bright neon green, the colour of typed commands.
    pub const FALLOUT_NEON_GREEN: &'static str = "\x1b[38;5;46m";

    /// Alert red, the error colour.
    pub const FALLOUT_RED: &'static str = "\x1b[38;5;160m";
}

/// The interface settings.
#[derive(Debug, Clone, Copy)]
pub struct CliConfig {
    pub answer_length: AnswerLength,
    pub colored_output: bool,
    pub prompt_character: bool,
    pub prompt_character_char: char,
    pub prompt_character_color: Option<&'static str>,
    pub command_color: Option<&'static str>,
    pub answer_color: Option<&'static str>,
    pub error_color: Option<&'static str>,
}

/// The settings a fresh interface starts with: long answers, colours on, `>` as the prompt.
pub open spec fn is_default_config(c: CliConfig) -> bool {
    &&& c.answer_length == AnswerLength::Long
    &&& c.colored_output
    &&& c.prompt_character
    &&& c.prompt_character_char == '>'
    &&& c.prompt_character_color == Some(AnsiColor::FALLOUT_GREEN)
    &&& c.command_color == Some(AnsiColor::FALLOUT_NEON_GREEN)
    &&& c.answer_color == Some(AnsiColor::FALLOUT_DARK_GREEN)
    &&& c.error_color == Some(AnsiColor::FALLOUT_RED)
}

impl Default for CliConfig {
    fn default() -> (r: Self)
        ensures
            is_default_config(r),
    {
        CliConfig {
            answer_length: AnswerLength::Long,
            colored_output: true,
            prompt_character: true,
            prompt_character_char: '>',
            prompt_character_color: Some(AnsiColor::FALLOUT_GREEN),
            command_color: Some(AnsiColor::FALLOUT_NEON_GREEN),
            answer_color: Some(AnsiColor::FALLOUT_DARK_GREEN),
            error_color: Some(AnsiColor::FALLOUT_RED),
        }
    }
}

impl CliConfig {
    /// The default settings.
    pub fn new() -> (r: Self)
        ensures
            is_default_config(r),
    {
        Self::default()
    }

    /// The prompt character, when the prompt character is enabled.
    pub open spec fn prompt_char_spec(&self) -> Option<char> {
        if self.prompt_character {
            Some(self.prompt_character_char)
        } else {
            None
        }
    }

    /// The prompt character, when the prompt character is enabled.
    pub fn get_prompt_char(&self) -> (r: Option<char>)
        ensures
            r == self.prompt_char_spec(),
    {
        if self.prompt_character {
            Some(self.prompt_character_char)
        } else {
            None
        }
    }

    /// Whether answers are short.
    pub open spec fn short(&self) -> bool {
        self.answer_length == AnswerLength::Short
    }

    /// Whether answers are short.
    pub fn is_short_output(&self) -> (r: bool)
        ensures
            r == self.short(),
    {
        match self.answer_length {
            AnswerLength::Short => true,
            AnswerLength::Long => false,
        }
    }

    /// Sets the answer length; nothing else changes.
    pub fn set_answer_length(&mut self, length: AnswerLength)
        ensures
            *final(self) == (CliConfig { answer_length: length, ..*old(self) }),
    {
        self.answer_length = length;
    }

    /// Turns coloured output on or off; nothing else changes.
    pub fn set_colored_output(&mut self, enabled: bool)
        ensures
            *final(self) == (CliConfig { colored_output: enabled, ..*old(self) }),
    {
        self.colored_output = enabled;
    }

    /// Turns the prompt character on or off; nothing else changes.
    pub fn set_prompt_character_enabled(&mut self, enabled: bool)
        ensures
            *final(self) == (CliConfig { prompt_character: enabled, ..*old(self) }),
    {
        self.prompt_character = enabled;
    }

    /// Sets the prompt character; nothing else changes.
    pub fn set_prompt_char(&mut self, c: char)
        ensures
            *final(self) == (CliConfig { prompt_character_char: c, ..*old(self) }),
    {
        self.prompt_character_char = c;
    }
}

} // verus!
