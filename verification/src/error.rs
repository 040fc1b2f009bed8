//! Failures of theme resolution and rendering.

use toml::de::Error as TomlError;
use vstd::prelude::*;

verus! {

/// Why the highlighter gave up on a source buffer.
#[derive(Debug, Clone, Copy, PartialEq, Eq, Structural)]
pub enum HighlightError {
    /// Highlighting was cancelled.
    Cancelled,
    /// The grammar or its queries could not be used.
    InvalidLanguage,
    /// The highlighter failed for a reason it does not name.
    Unknown,
}

/// Why a text is no theme document.
#[derive(Debug)]
pub enum Malformed {
    /// The text is not valid TOML; holds the parser's error.
    Syntax(TomlError),
    /// The document has no `palette`.
    MissingPalette,
}

/// What a [`Malformed`] says, without the parser's own diagnostics.
pub enum MalformedView {
    Syntax,
    MissingPalette,
}

impl View for Malformed {
    type V = MalformedView;

    open spec fn view(&self) -> MalformedView {
        match self {
            Malformed::Syntax(_) => MalformedView::Syntax,
            Malformed::MissingPalette => MalformedView::MissingPalette,
        }
    }
}

/// Errors occurring while a theme is resolved or a source buffer is rendered.
#[derive(Debug)]
pub enum Error {
    /// The theme is no document: its text is not valid TOML, or it has no
    /// palette.
    Toml(Malformed),
    /// The document is not structured like a theme: its top level is no
    /// table.
    InvalidTheme,
    /// A color is referenced but not defined; holds the name of the scope or
    /// field that makes the reference.
    InvalidColorReference(String),
    /// The highlighter failed.
    Highlighting(HighlightError),
    /// The highlight events do not fit the source or leave a scope open. This
    /// is a defect of the highlighter, not a condition to recover from.
    InvariantViolation,
}

/// What an [`Error`] says, without the parser's own diagnostics.
pub enum ErrorView {
    Toml(MalformedView),
    InvalidTheme,
    InvalidColorReference(Seq<char>),
    Highlighting(HighlightError),
    InvariantViolation,
}

impl View for Error {
    type V = ErrorView;

    open spec fn view(&self) -> ErrorView {
        match self {
            Error::Toml(cause) => ErrorView::Toml(cause@),
            Error::InvalidTheme => ErrorView::InvalidTheme,
            Error::InvalidColorReference(name) => ErrorView::InvalidColorReference(name@),
            Error::Highlighting(cause) => ErrorView::Highlighting(*cause),
            Error::InvariantViolation => ErrorView::InvariantViolation,
        }
    }
}

/// What is said of a failure of the highlighter.
pub open spec fn highlight_text(cause: HighlightError) -> Seq<char> {
    match cause {
        HighlightError::Cancelled => "Cancelled"@,
        HighlightError::InvalidLanguage => "Invalid language"@,
        HighlightError::Unknown => "Unknown error"@,
    }
}

/// Whether `text` is a message for `error`. Each error has one message, but
/// for a text that is not valid TOML: there the message goes on with what the
/// parser says.
pub open spec fn is_message(error: ErrorView, text: Seq<char>) -> bool {
    match error {
        ErrorView::Toml(MalformedView::Syntax) => "toml parse eror: "@.is_prefix_of(text),
        ErrorView::Toml(MalformedView::MissingPalette) => text
            == "toml parse eror: the palette is missing"@,
        ErrorView::InvalidTheme => text == "toml does not contain valid helix theme"@,
        ErrorView::InvalidColorReference(name) => text == "toml color "@ + name + " not found"@,
        ErrorView::Highlighting(cause) => text == "highlighting failed: "@ + highlight_text(cause),
        ErrorView::InvariantViolation => text == "highlight events are not well-formed"@,
    }
}

impl HighlightError {
    /// What is said of the failure.
    pub fn text(&self) -> (text: &'static str)
        ensures
            text@ == highlight_text(*self),
    {
        match self {
            HighlightError::Cancelled => "Cancelled",
            HighlightError::InvalidLanguage => "Invalid language",
            HighlightError::Unknown => "Unknown error",
        }
    }
}

impl Error {
    /// The message of the error, for a reader.
    pub fn message(&self) -> (message: String)
        ensures
            is_message(self@, message@),
    {
        match self {
            Error::Toml(Malformed::Syntax(cause)) => {
                let said = cause.to_string();
                let message = "toml parse eror: ".to_owned().concat(said.as_str());
                assert("toml parse eror: "@.is_prefix_of(message@));
                message
            },
            Error::Toml(Malformed::MissingPalette) => {
                "toml parse eror: the palette is missing".to_owned()
            },
            Error::InvalidTheme => "toml does not contain valid helix theme".to_owned(),
            Error::InvalidColorReference(name) => {
                "toml color ".to_owned().concat(name.as_str()).concat(" not found")
            },
            Error::Highlighting(cause) => "highlighting failed: ".to_owned().concat(cause.text()),
            Error::InvariantViolation => "highlight events are not well-formed".to_owned(),
        }
    }
}

} // verus!
