//! The record that describes one suggested command.

use crate::text::same_text;
use vstd::prelude::*;

verus! {

/// How risky a suggested command is.
#[derive(Clone, Copy, Debug, PartialEq, Eq, Structural)]
pub enum Severity {
    Safe,
    Warning,
    Dangerous,
    Unknown,
}

/// The severity that a text names: `safe`, `warning` or `dangerous`, and
/// `Unknown` for every other text, the empty one too.
pub open spec fn severity_of(text: Seq<char>) -> Severity {
    if text == "safe"@ {
        Severity::Safe
    } else if text == "warning"@ {
        Severity::Warning
    } else if text == "dangerous"@ {
        Severity::Dangerous
    } else {
        Severity::Unknown
    }
}

/// The label under which a severity is shown.
pub open spec fn severity_label(severity: Severity) -> Seq<char> {
    match severity {
        Severity::Safe => "🟢 SAFE"@,
        Severity::Warning => "🟡 WARNING"@,
        Severity::Dangerous => "🔴 DANGEROUS"@,
        Severity::Unknown => "⚪ UNKNOWN"@,
    }
}

impl Severity {
    /// The severity that `text` names.
    pub fn from_text(text: &str) -> (r: Severity)
        ensures
            r == severity_of(text@),
    {
        if same_text(text, "safe") {
            Severity::Safe
        } else if same_text(text, "warning") {
            Severity::Warning
        } else if same_text(text, "dangerous") {
            Severity::Dangerous
        } else {
            Severity::Unknown
        }
    }

    /// The label under which the severity is shown.
    pub fn label(&self) -> (r: &'static str)
        ensures
            r@ == severity_label(*self),
    {
        match self {
            Severity::Safe => "🟢 SAFE",
            Severity::Warning => "🟡 WARNING",
            Severity::Dangerous => "🔴 DANGEROUS",
            Severity::Unknown => "⚪ UNKNOWN",
        }
    }
}

/// Whether `command` is one of the two reserved texts that stand for
/// "this was not a task".
pub open spec fn is_sentinel(command: Seq<char>) -> bool {
    command == "ERROR"@ || command == "no command returned"@
}

/// One suggested command with what the model said about it.
#[derive(Debug)]
pub struct CommandSuggestion {
    pub command: String,
    pub description: String,
    pub explanation: String,
    pub severity: Severity,
    pub severity_description: String,
}

/// The mathematical form of a [`CommandSuggestion`].
pub ghost struct SuggestionView {
    pub command: Seq<char>,
    pub description: Seq<char>,
    pub explanation: Seq<char>,
    pub severity: Severity,
    pub severity_description: Seq<char>,
}

impl SuggestionView {
    /// A suggestion names a command: its text is never empty.
    pub open spec fn well_formed(self) -> bool {
        self.command.len() > 0
    }

    /// Whether the suggestion says that the question was not a task.
    pub open spec fn not_a_task(self) -> bool {
        is_sentinel(self.command)
    }
}

impl View for CommandSuggestion {
    type V = SuggestionView;

    open spec fn view(&self) -> SuggestionView {
        SuggestionView {
            command: self.command@,
            description: self.description@,
            explanation: self.explanation@,
            severity: self.severity,
            severity_description: self.severity_description@,
        }
    }
}

impl CommandSuggestion {
    /// Whether the suggestion says that the question was not a task.
    pub fn is_not_a_task(&self) -> (r: bool)
        ensures
            r == self@.not_a_task(),
    {
        same_text(self.command.as_str(), "ERROR") || same_text(
            self.command.as_str(),
            "no command returned",
        )
    }
}

impl Clone for CommandSuggestion {
    fn clone(&self) -> (r: CommandSuggestion)
        ensures
            r@ == self@,
    {
        CommandSuggestion {
            command: self.command.clone(),
            description: self.description.clone(),
            explanation: self.explanation.clone(),
            severity: self.severity,
            severity_description: self.severity_description.clone(),
        }
    }
}

} // verus!
