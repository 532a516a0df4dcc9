//! The command data model: languages, shells, the validated command, and
//! the validation errors, together with their ghost views.

use vstd::prelude::*;

verus! {

/// Language in which the greeting is shown.
#[derive(Clone, Copy, Debug, PartialEq, Eq, Structural)]
pub enum Language {
    En,
    Ja,
}

/// A shell kind for which a completion script can be produced.
#[derive(Clone, Copy, Debug, PartialEq, Eq, Structural)]
pub enum ShellKind {
    Bash,
    Zsh,
    Fish,
    PowerShell,
    Elvish,
}

/// A validated command, constructed once per invocation from the raw
/// argument list and consumed exactly once by the dispatcher.
///
/// For `Greet`, `language` and `file` are mutually exclusive: parsing
/// never produces a `Greet` with both present.
#[derive(Clone, Debug, PartialEq, Eq)]
pub enum Command {
    Greet { language: Option<Language>, file: Option<String> },
    Completion { shell: ShellKind },
}

/// The ghost model of a [`Command`]: the file path as a sequence of
/// characters rather than a `String`.
pub enum CommandModel {
    Greet { language: Option<Language>, file: Option<Seq<char>> },
    Completion { shell: ShellKind },
}

impl View for Command {
    type V = CommandModel;

    open spec fn view(&self) -> CommandModel {
        match self {
            Command::Greet { language, file } => CommandModel::Greet {
                language: *language,
                file: match file {
                    Some(f) => Some(f@),
                    None => None,
                },
            },
            Command::Completion { shell } => CommandModel::Completion { shell: *shell },
        }
    }
}

/// A detected misuse of the command-line grammar. Every variant is
/// recovered by the caller as a usage message and a non-zero exit; none
/// crashes the process.
#[derive(Clone, Copy, Debug, PartialEq, Eq, Structural)]
pub enum ParseError {
    /// No subcommand token was given.
    MissingSubcommand,
    /// The first token names no known subcommand.
    UnknownSubcommand,
    /// A token is not a known option of the chosen subcommand.
    UnknownOption,
    /// An option that takes a value stands last, with no value token.
    MissingValue,
    /// The same option was given twice.
    DuplicateOption,
    /// `--language` and `--file` were both given.
    ConflictingOptions,
    /// The value of `--language` is neither `en` nor `ja`.
    InvalidLanguage,
    /// The value of `--shell` names no supported shell.
    InvalidShell,
    /// `completion` was invoked without the required `--shell`.
    MissingShell,
}

/// The diagnostic text of a validation error.
pub open spec fn message_text(e: ParseError) -> Seq<char> {
    match e {
        ParseError::MissingSubcommand => "missing subcommand"@,
        ParseError::UnknownSubcommand => "unknown subcommand"@,
        ParseError::UnknownOption => "unknown option"@,
        ParseError::MissingValue => "the option requires a value"@,
        ParseError::DuplicateOption => "the option was given more than once"@,
        ParseError::ConflictingOptions => "--language cannot be used together with --file"@,
        ParseError::InvalidLanguage => "the language must be one of: en, ja"@,
        ParseError::InvalidShell => (
            "the shell must be one of: bash, zsh, fish, powershell, elvish"@
        ),
        ParseError::MissingShell => "completion requires --shell"@,
    }
}

impl ParseError {
    /// Returns the diagnostic text for this error, as [`message_text`]
    /// says.
    pub fn message(&self) -> (r: String)
        ensures
            r@ == message_text(*self),
    {
        match self {
            ParseError::MissingSubcommand => "missing subcommand".to_owned(),
            ParseError::UnknownSubcommand => "unknown subcommand".to_owned(),
            ParseError::UnknownOption => "unknown option".to_owned(),
            ParseError::MissingValue => "the option requires a value".to_owned(),
            ParseError::DuplicateOption => "the option was given more than once".to_owned(),
            ParseError::ConflictingOptions => (
                "--language cannot be used together with --file".to_owned()
            ),
            ParseError::InvalidLanguage => "the language must be one of: en, ja".to_owned(),
            ParseError::InvalidShell => (
                "the shell must be one of: bash, zsh, fish, powershell, elvish".to_owned()
            ),
            ParseError::MissingShell => "completion requires --shell".to_owned(),
        }
    }
}

/// The usage text shown beside a validation error.
pub open spec fn usage_text() -> Seq<char> {
    "usage: greet_cli greet [--language <en|ja>] [--file <path>]\n       greet_cli completion --shell <bash|zsh|fish|powershell|elvish>"@
}

/// Returns the usage text, as [`usage_text`] says.
pub fn usage() -> (r: String)
    ensures
        r@ == usage_text(),
{
    "usage: greet_cli greet [--language <en|ja>] [--file <path>]\n       greet_cli completion --shell <bash|zsh|fish|powershell|elvish>".to_owned()
}

} // verus!
