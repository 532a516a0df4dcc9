use greet_cli::command::{Command, Language, ParseError, ShellKind};
use greet_cli::grammar::{grammar, shell_token};
use greet_cli::greet::{greeting, trim_trailing_whitespace};
use greet_cli::parse::parse_args;

fn args_of(tokens: &[&str]) -> Vec<String> {
    tokens.iter().map(|t| t.to_string()).collect()
}

#[test]
fn greet_with_no_options_greets_in_english() {
    let r = parse_args(&args_of(&["greet"]));
    assert_eq!(r, Ok(Command::Greet { language: None, file: None }));
    assert_eq!(greeting(None), "Hello");
}

#[test]
fn greet_in_english_greets_hello() {
    let r = parse_args(&args_of(&["greet", "--language", "en"]));
    assert_eq!(r, Ok(Command::Greet { language: Some(Language::En), file: None }));
    assert_eq!(greeting(Some(Language::En)), "Hello");
}

#[test]
fn greet_in_japanese_greets_in_japanese() {
    let r = parse_args(&args_of(&["greet", "--language", "ja"]));
    assert_eq!(r, Ok(Command::Greet { language: Some(Language::Ja), file: None }));
    assert_eq!(greeting(Some(Language::Ja)), "こんにちは");
}

#[test]
fn greet_short_options_work() {
    let r = parse_args(&args_of(&["greet", "-l", "ja"]));
    assert_eq!(r, Ok(Command::Greet { language: Some(Language::Ja), file: None }));
    let r = parse_args(&args_of(&["greet", "-f", "x.txt"]));
    assert_eq!(
        r,
        Ok(Command::Greet { language: None, file: Some("x.txt".to_string()) })
    );
}

#[test]
fn greet_with_file_keeps_the_path() {
    let r = parse_args(&args_of(&["greet", "--file", "notes/hello.txt"]));
    assert_eq!(
        r,
        Ok(Command::Greet { language: None, file: Some("notes/hello.txt".to_string()) })
    );
}

#[test]
fn language_and_file_together_are_rejected() {
    let r = parse_args(&args_of(&["greet", "--language", "en", "--file", "a.txt"]));
    assert_eq!(r, Err(ParseError::ConflictingOptions));
    let r = parse_args(&args_of(&["greet", "--file", "a.txt", "--language", "ja"]));
    assert_eq!(r, Err(ParseError::ConflictingOptions));
    let r = parse_args(&args_of(&["greet", "-l", "ja", "-f", "b.txt"]));
    assert_eq!(r, Err(ParseError::ConflictingOptions));
}

#[test]
fn file_content_is_trimmed_at_the_end_only() {
    assert_eq!(trim_trailing_whitespace("Hi there!\n\n  "), "Hi there!");
    assert_eq!(trim_trailing_whitespace("  leading stays"), "  leading stays");
    assert_eq!(trim_trailing_whitespace("inner\nlines\nstay\n"), "inner\nlines\nstay");
    assert_eq!(trim_trailing_whitespace(""), "");
    assert_eq!(trim_trailing_whitespace(" \t\n"), "");
    assert_eq!(trim_trailing_whitespace("こんにちは\n"), "こんにちは");
}

#[test]
fn completion_with_a_shell_parses() {
    let r = parse_args(&args_of(&["completion", "--shell", "zsh"]));
    assert_eq!(r, Ok(Command::Completion { shell: ShellKind::Zsh }));
    let r = parse_args(&args_of(&["completion", "-s", "bash"]));
    assert_eq!(r, Ok(Command::Completion { shell: ShellKind::Bash }));
    let r = parse_args(&args_of(&["completion", "--shell", "powershell"]));
    assert_eq!(r, Ok(Command::Completion { shell: ShellKind::PowerShell }));
}

#[test]
fn empty_invocation_is_rejected() {
    let r = parse_args(&Vec::new());
    assert_eq!(r, Err(ParseError::MissingSubcommand));
}

#[test]
fn unknown_subcommand_is_rejected() {
    let r = parse_args(&args_of(&["bogus"]));
    assert_eq!(r, Err(ParseError::UnknownSubcommand));
    let r = parse_args(&args_of(&["bogus", "--language", "en"]));
    assert_eq!(r, Err(ParseError::UnknownSubcommand));
}

#[test]
fn unknown_option_is_rejected() {
    let r = parse_args(&args_of(&["greet", "--frobnicate"]));
    assert_eq!(r, Err(ParseError::UnknownOption));
    let r = parse_args(&args_of(&["completion", "--language", "en"]));
    assert_eq!(r, Err(ParseError::UnknownOption));
}

#[test]
fn option_without_a_value_is_rejected() {
    let r = parse_args(&args_of(&["greet", "--language"]));
    assert_eq!(r, Err(ParseError::MissingValue));
    let r = parse_args(&args_of(&["completion", "--shell"]));
    assert_eq!(r, Err(ParseError::MissingValue));
}

#[test]
fn repeated_option_is_rejected() {
    let r = parse_args(&args_of(&["greet", "-l", "en", "-l", "ja"]));
    assert_eq!(r, Err(ParseError::DuplicateOption));
    let r = parse_args(&args_of(&["completion", "-s", "bash", "-s", "zsh"]));
    assert_eq!(r, Err(ParseError::DuplicateOption));
}

#[test]
fn unknown_language_is_rejected() {
    let r = parse_args(&args_of(&["greet", "--language", "fr"]));
    assert_eq!(r, Err(ParseError::InvalidLanguage));
}

#[test]
fn unknown_shell_is_rejected() {
    let r = parse_args(&args_of(&["completion", "--shell", "csh"]));
    assert_eq!(r, Err(ParseError::InvalidShell));
}

#[test]
fn completion_without_a_shell_is_rejected() {
    let r = parse_args(&args_of(&["completion"]));
    assert_eq!(r, Err(ParseError::MissingShell));
}

#[test]
fn every_error_has_a_message_and_there_is_a_usage_text() {
    let errors = [
        ParseError::MissingSubcommand,
        ParseError::UnknownSubcommand,
        ParseError::UnknownOption,
        ParseError::MissingValue,
        ParseError::DuplicateOption,
        ParseError::ConflictingOptions,
        ParseError::InvalidLanguage,
        ParseError::InvalidShell,
        ParseError::MissingShell,
    ];
    for e in errors {
        assert!(!e.message().is_empty());
    }
    assert_eq!(
        ParseError::ConflictingOptions.message(),
        "--language cannot be used together with --file"
    );
    let u = greet_cli::command::usage();
    assert!(u.contains("greet"));
    assert!(u.contains("completion"));
}

#[test]
fn grammar_names_both_subcommands_and_their_options() {
    let g = grammar();
    assert_eq!(g.len(), 2);
    assert_eq!(g[0].name, "greet");
    assert_eq!(g[0].options.len(), 2);
    assert_eq!(g[0].options[0].long, "language");
    assert_eq!(g[0].options[0].short, 'l');
    assert_eq!(g[0].options[0].choices, vec!["en", "ja"]);
    assert!(!g[0].options[0].required);
    assert_eq!(g[0].options[1].long, "file");
    assert_eq!(g[0].options[1].short, 'f');
    assert!(g[0].options[1].choices.is_empty());
    assert_eq!(g[1].name, "completion");
    assert_eq!(g[1].options.len(), 1);
    assert_eq!(g[1].options[0].long, "shell");
    assert_eq!(g[1].options[0].short, 's');
    assert_eq!(
        g[1].options[0].choices,
        vec!["bash", "zsh", "fish", "powershell", "elvish"]
    );
    assert!(g[1].options[0].required);
}

#[test]
fn shell_tokens_are_the_accepted_values() {
    assert_eq!(shell_token(ShellKind::Bash), "bash");
    assert_eq!(shell_token(ShellKind::Zsh), "zsh");
    assert_eq!(shell_token(ShellKind::Fish), "fish");
    assert_eq!(shell_token(ShellKind::PowerShell), "powershell");
    assert_eq!(shell_token(ShellKind::Elvish), "elvish");
}
