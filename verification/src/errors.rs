//! The errors that normal operation of the archive can produce.

use vstd::prelude::*;
use crate::text::{debug_quote, debug_quoted, decimal, decimal_string, framed};

verus! {

/// Errors which can be caused by normal operation of the archive. Each is a
/// kind, and where there is one, the key or message that caused it.
#[derive(Debug, PartialEq, Eq)]
pub enum LostTheWay {
    /// An unrecorded language was asked for.
    LanguageNotFound { language: String },
    /// A snippet index that does not exist was asked for.
    SnippetNotFound { index: usize },
    /// An unrecorded tag was asked for.
    TagNotFound { tag: String },
    /// No text came back from the external editor.
    EditorError,
    /// The user did not confirm a destructive action.
    DoingNothing { message: String },
    /// The home directory is not known.
    Homeless,
    /// A theme that was never added was asked for.
    ThemeError { theme: String },
    /// Text could not be copied to the clipboard.
    ClipboardError,
    /// The interactive search session could not be set up.
    SearchError,
    /// Catch-all for what should never happen.
    OutOfCheeseError { message: String },
}

impl LostTheWay {
    /// The text shown to the user for this error. Keys and messages appear
    /// quoted as `std`'s `Debug` formatting quotes them, an index as a
    /// decimal number.
    pub open spec fn message_text(self) -> Seq<char> {
        match self {
            LostTheWay::LanguageNotFound { language } => "I don't know what "@ + debug_quoted(
                language@,
            ) + " is."@,
            LostTheWay::SnippetNotFound { index } => "You haven't written that snippet: "@
                + decimal(index as nat) + "."@,
            LostTheWay::TagNotFound { tag } => "You haven't tagged anything as "@ + debug_quoted(
                tag@,
            ) + " yet."@,
            LostTheWay::EditorError => "Your editor of choice didn't work."@,
            LostTheWay::DoingNothing { message } => debug_quoted(message@)
                + "\nDoing nothing."@,
            LostTheWay::Homeless => "$HOME not set"@,
            LostTheWay::ThemeError { theme } => "I don't have the "@ + debug_quoted(theme@)
                + " theme. Add it from a theme file with the-way themes --add"@,
            LostTheWay::ClipboardError => "Couldn't copy to clipboard"@,
            LostTheWay::SearchError => "Search failed"@,
            LostTheWay::OutOfCheeseError { message } => debug_quoted(message@)
                + "\nRedo from start."@,
        }
    }

    /// The text shown to the user for this error.
    pub fn message(&self) -> (text: String)
        ensures
            text@ == self.message_text(),
    {
        match self {
            LostTheWay::LanguageNotFound { language } => {
                let quoted = debug_quote(language.as_str());
                framed("I don't know what ", quoted.as_str(), " is.")
            },
            LostTheWay::SnippetNotFound { index } => {
                let number = decimal_string(*index);
                framed("You haven't written that snippet: ", number.as_str(), ".")
            },
            LostTheWay::TagNotFound { tag } => {
                let quoted = debug_quote(tag.as_str());
                framed("You haven't tagged anything as ", quoted.as_str(), " yet.")
            },
            LostTheWay::EditorError => String::from_str("Your editor of choice didn't work."),
            LostTheWay::DoingNothing { message } => {
                let quoted = debug_quote(message.as_str());
                proof {
                    reveal_strlit("");
                }
                framed("", quoted.as_str(), "\nDoing nothing.")
            },
            LostTheWay::Homeless => String::from_str("$HOME not set"),
            LostTheWay::ThemeError { theme } => {
                let quoted = debug_quote(theme.as_str());
                framed(
                    "I don't have the ",
                    quoted.as_str(),
                    " theme. Add it from a theme file with the-way themes --add",
                )
            },
            LostTheWay::ClipboardError => String::from_str("Couldn't copy to clipboard"),
            LostTheWay::SearchError => String::from_str("Search failed"),
            LostTheWay::OutOfCheeseError { message } => {
                let quoted = debug_quote(message.as_str());
                proof {
                    reveal_strlit("");
                }
                framed("", quoted.as_str(), "\nRedo from start.")
            },
        }
    }
}

} // verus!
