//! Interactive prompts: the question, its options, and the decision rule
//! for each line of input. Reading from the terminal happens outside the
//! library, which only decides what each answer means.

use vstd::prelude::*;

verus! {

/// An interactive prompt for a value of some type.
pub struct Prompt<T> {
    /// The question shown to the user
    pub prompt: String,
    /// The default value, used for empty input
    pub default: Option<T>,
    /// Whether the input is hidden, for passwords
    pub password: bool,
    /// The allowed choices, if restricted
    pub choices: Option<Vec<T>>,
    /// Whether the default is shown in the prompt
    pub show_default: bool,
    /// Whether the choices are shown in the prompt
    pub show_choices: bool,
}

impl<T> Prompt<T> {
    /// Create a prompt with the given question.
    pub fn new(prompt: &str) -> (p: Prompt<T>)
        ensures
            p.prompt@ == prompt@,
            p.default is None,
            !p.password,
            p.choices is None,
            p.show_default,
            p.show_choices,
    {
        Prompt {
            prompt: prompt.to_owned(),
            default: None,
            password: false,
            choices: None,
            show_default: true,
            show_choices: true,
        }
    }

    /// Set a default value.
    pub fn default(self, default: T) -> (p: Prompt<T>)
        ensures
            p.default is Some,
            p.prompt == self.prompt,
            p.password == self.password,
            p.show_default == self.show_default,
            p.show_choices == self.show_choices,
    {
        Prompt { default: Some(default), ..self }
    }

    /// Hide the input, for passwords.
    pub fn secret(self) -> (p: Prompt<T>)
        ensures
            p.password,
            p.prompt == self.prompt,
            p.show_default == self.show_default,
            p.show_choices == self.show_choices,
    {
        Prompt { password: true, ..self }
    }

    /// Restrict the answer to the given choices.
    pub fn choices(self, choices: Vec<T>) -> (p: Prompt<T>)
        ensures
            p.choices is Some,
            p.prompt == self.prompt,
            p.password == self.password,
            p.show_default == self.show_default,
            p.show_choices == self.show_choices,
    {
        Prompt { choices: Some(choices), ..self }
    }

    /// Show or hide the default value in the prompt.
    pub fn show_default(self, show: bool) -> (p: Prompt<T>)
        ensures
            p.show_default == show,
            p.prompt == self.prompt,
            p.password == self.password,
            p.show_choices == self.show_choices,
    {
        Prompt { show_default: show, ..self }
    }

    /// Show or hide the choices in the prompt.
    pub fn show_choices(self, show: bool) -> (p: Prompt<T>)
        ensures
            p.show_choices == show,
            p.prompt == self.prompt,
            p.password == self.password,
            p.show_default == self.show_default,
    {
        Prompt { show_choices: show, ..self }
    }
}

/// What one line of input means for a prompt: accept the parsed value, fall
/// back to the default, or ask again with a complaint.
#[derive(Debug, Clone, Copy, PartialEq, Eq, Structural)]
pub enum PromptOutcome {
    /// The answer is valid and accepted
    Accept,
    /// The input was empty and the default applies
    UseDefault,
    /// The value is not one of the allowed choices
    RejectNotChoice,
    /// The input does not parse as a value
    RejectInvalid,
}

/// Decide what one line of input means: empty input takes the default when
/// there is one; otherwise the parse must succeed, and the value must be
/// one of the allowed choices when the prompt restricts them.
pub fn prompt_outcome(
    input_empty: bool,
    has_default: bool,
    parse_ok: bool,
    in_choices: Option<bool>,
) -> (r: PromptOutcome)
    ensures
        r == (if input_empty && has_default {
            PromptOutcome::UseDefault
        } else if !parse_ok {
            PromptOutcome::RejectInvalid
        } else if in_choices == Some(false) {
            PromptOutcome::RejectNotChoice
        } else {
            PromptOutcome::Accept
        }),
{
    if input_empty && has_default {
        PromptOutcome::UseDefault
    } else if !parse_ok {
        PromptOutcome::RejectInvalid
    } else if in_choices == Some(false) {
        PromptOutcome::RejectNotChoice
    } else {
        PromptOutcome::Accept
    }
}

/// A yes/no confirmation prompt.
pub struct Confirm;

impl Confirm {
    /// Whether an answer string means yes: it starts with `y` or `Y`.
    pub fn means_yes(answer: &str) -> (r: bool)
        ensures
            r == (answer@.len() > 0 && (answer@[0] == 'y' || answer@[0] == 'Y')),
    {
        let v = crate::chars::str_chars(answer);
        if v.len() == 0 {
            return false;
        }
        let c = v[0];
        c == 'y' || c == 'Y'
    }
}

} // verus!
