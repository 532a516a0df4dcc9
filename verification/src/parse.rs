//! Parsing the raw argument list into a validated [`Command`].
//!
//! The grammar is stated once, as spec functions over sequences of
//! characters, and the executable parser is proved to return exactly what
//! the grammar says, error cases included. The first token selects the
//! subcommand; `greet` takes the optional `--language`/`-l` (`en` or `ja`)
//! and `--file`/`-f` (a path), which are mutually exclusive; `completion`
//! requires `--shell`/`-s` naming a supported shell. An option's value is
//! the token that follows it, taken verbatim.

use vstd::prelude::*;
use vstd::seq_lib::lemma_seq_skip_of_skip;

use crate::command::{Command, CommandModel, Language, ParseError, ShellKind};

verus! {

broadcast use vstd::string::group_string_axioms;

/// The language named by an argument token, if any.
pub open spec fn language_of(tok: Seq<char>) -> Option<Language> {
    if tok == "en"@ {
        Some(Language::En)
    } else if tok == "ja"@ {
        Some(Language::Ja)
    } else {
        None
    }
}

/// The shell named by an argument token, if any.
pub open spec fn shell_of(tok: Seq<char>) -> Option<ShellKind> {
    if tok == "bash"@ {
        Some(ShellKind::Bash)
    } else if tok == "zsh"@ {
        Some(ShellKind::Zsh)
    } else if tok == "fish"@ {
        Some(ShellKind::Fish)
    } else if tok == "powershell"@ {
        Some(ShellKind::PowerShell)
    } else if tok == "elvish"@ {
        Some(ShellKind::Elvish)
    } else {
        None
    }
}

/// The raw options of `greet` read off the tokens after the subcommand,
/// folded left to right into the accumulators `language` and `file`.
pub open spec fn greet_options(
    rest: Seq<Seq<char>>,
    language: Option<Language>,
    file: Option<Seq<char>>,
) -> Result<(Option<Language>, Option<Seq<char>>), ParseError>
    decreases rest.len(),
{
    if rest.len() == 0 {
        Ok((language, file))
    } else if rest[0] == "--language"@ || rest[0] == "-l"@ {
        if language is Some {
            Err(ParseError::DuplicateOption)
        } else if rest.len() < 2 {
            Err(ParseError::MissingValue)
        } else {
            match language_of(rest[1]) {
                Some(l) => greet_options(rest.skip(2), Some(l), file),
                None => Err(ParseError::InvalidLanguage),
            }
        }
    } else if rest[0] == "--file"@ || rest[0] == "-f"@ {
        if file is Some {
            Err(ParseError::DuplicateOption)
        } else if rest.len() < 2 {
            Err(ParseError::MissingValue)
        } else {
            greet_options(rest.skip(2), language, Some(rest[1]))
        }
    } else {
        Err(ParseError::UnknownOption)
    }
}

/// Validation of the raw `greet` options: `--language` and `--file` are
/// mutually exclusive; both absent means the default greeting.
pub open spec fn validated_greet(
    language: Option<Language>,
    file: Option<Seq<char>>,
) -> Result<CommandModel, ParseError> {
    if language is Some && file is Some {
        Err(ParseError::ConflictingOptions)
    } else {
        Ok(CommandModel::Greet { language, file })
    }
}

/// What `greet` followed by the tokens `rest` parses to.
pub open spec fn greet_command(rest: Seq<Seq<char>>) -> Result<CommandModel, ParseError> {
    match greet_options(rest, None, None) {
        Ok(opts) => validated_greet(opts.0, opts.1),
        Err(e) => Err(e),
    }
}

/// The raw option of `completion` read off the tokens after the
/// subcommand, folded into the accumulator `shell`.
pub open spec fn completion_options(
    rest: Seq<Seq<char>>,
    shell: Option<ShellKind>,
) -> Result<Option<ShellKind>, ParseError>
    decreases rest.len(),
{
    if rest.len() == 0 {
        Ok(shell)
    } else if rest[0] == "--shell"@ || rest[0] == "-s"@ {
        if shell is Some {
            Err(ParseError::DuplicateOption)
        } else if rest.len() < 2 {
            Err(ParseError::MissingValue)
        } else {
            match shell_of(rest[1]) {
                Some(s) => completion_options(rest.skip(2), Some(s)),
                None => Err(ParseError::InvalidShell),
            }
        }
    } else {
        Err(ParseError::UnknownOption)
    }
}

/// What `completion` followed by the tokens `rest` parses to: the shell
/// option is required.
pub open spec fn completion_command(rest: Seq<Seq<char>>) -> Result<CommandModel, ParseError> {
    match completion_options(rest, None) {
        Ok(Some(s)) => Ok(CommandModel::Completion { shell: s }),
        Ok(None) => Err(ParseError::MissingShell),
        Err(e) => Err(e),
    }
}

/// The whole grammar: what an argument list (without the program name)
/// parses to.
pub open spec fn parse_command(args: Seq<Seq<char>>) -> Result<CommandModel, ParseError> {
    if args.len() == 0 {
        Err(ParseError::MissingSubcommand)
    } else if args[0] == "greet"@ {
        greet_command(args.skip(1))
    } else if args[0] == "completion"@ {
        completion_command(args.skip(1))
    } else {
        Err(ParseError::UnknownSubcommand)
    }
}

/// The ghost model of a parse result.
pub open spec fn result_model(r: Result<Command, ParseError>) -> Result<CommandModel, ParseError> {
    match r {
        Ok(c) => Ok(c@),
        Err(e) => Err(e),
    }
}

/// Whatever the argument list, a parsed `greet` never carries both a
/// language and a file: the two options are mutually exclusive.
pub proof fn lemma_greet_options_exclusive(
    args: Seq<Seq<char>>,
    language: Option<Language>,
    file: Option<Seq<char>>,
)
    requires
        parse_command(args) == Ok::<CommandModel, ParseError>(
            CommandModel::Greet { language, file },
        ),
    ensures
        !(language is Some && file is Some),
{
}

/// An invocation of `greet` that gives both `--language` and `--file`,
/// whatever their values and in either order, is rejected.
pub proof fn lemma_conflicting_invocation_rejected(
    language_value: Seq<char>,
    file_value: Seq<char>,
)
    ensures
        parse_command(seq!["greet"@, "--language"@, language_value, "--file"@, file_value])
            is Err,
        parse_command(seq!["greet"@, "--file"@, file_value, "--language"@, language_value])
            is Err,
{
    reveal_strlit("--language");
    reveal_strlit("--file");
    reveal_strlit("-l");
    reveal_strlit("-f");
    reveal_with_fuel(greet_options, 4);
    let a = seq!["greet"@, "--language"@, language_value, "--file"@, file_value];
    assert(a.skip(1) =~= seq!["--language"@, language_value, "--file"@, file_value]);
    assert(a.skip(1).skip(2) =~= seq!["--file"@, file_value]);
    assert(a.skip(1).skip(2).skip(2) =~= Seq::<Seq<char>>::empty());
    let b = seq!["greet"@, "--file"@, file_value, "--language"@, language_value];
    assert(b.skip(1) =~= seq!["--file"@, file_value, "--language"@, language_value]);
    assert(b.skip(1).skip(2) =~= seq!["--language"@, language_value]);
    assert(b.skip(1).skip(2).skip(2) =~= Seq::<Seq<char>>::empty());
}

/// A first token that names no known subcommand is rejected as such,
/// whatever follows it.
pub proof fn lemma_unknown_subcommand_rejected(first: Seq<char>, rest: Seq<Seq<char>>)
    requires
        first != "greet"@,
        first != "completion"@,
    ensures
        parse_command(seq![first].add(rest)) == Err::<CommandModel, ParseError>(
            ParseError::UnknownSubcommand,
        ),
{
    let a = seq![first].add(rest);
    assert(a.len() >= 1);
    assert(a[0] == first);
}

/// Whether the token `t` is exactly the literal `lit`.
fn token_is(t: &String, lit: &str) -> (r: bool)
    ensures
        r == (t@ == lit@),
{
    let l: String = lit.to_owned();
    *t == l
}

/// Reads the `--language` value of a token, as [`language_of`] says.
fn language_of_token(t: &String) -> (r: Option<Language>)
    ensures
        r == language_of(t@),
{
    if token_is(t, "en") {
        Some(Language::En)
    } else if token_is(t, "ja") {
        Some(Language::Ja)
    } else {
        None
    }
}

/// Reads the `--shell` value of a token, as [`shell_of`] says.
fn shell_of_token(t: &String) -> (r: Option<ShellKind>)
    ensures
        r == shell_of(t@),
{
    if token_is(t, "bash") {
        Some(ShellKind::Bash)
    } else if token_is(t, "zsh") {
        Some(ShellKind::Zsh)
    } else if token_is(t, "fish") {
        Some(ShellKind::Fish)
    } else if token_is(t, "powershell") {
        Some(ShellKind::PowerShell)
    } else if token_is(t, "elvish") {
        Some(ShellKind::Elvish)
    } else {
        None
    }
}

/// Parses the tokens after `greet` and validates them.
fn parse_greet_rest(args: &Vec<String>) -> (r: Result<Command, ParseError>)
    requires
        args@.len() >= 1,
    ensures
        result_model(r) == greet_command(args.deep_view().skip(1)),
{
    let ghost dv = args.deep_view();
    let mut language: Option<Language> = None;
    let mut file: Option<String> = None;
    let mut i: usize = 1;
    while i < args.len()
        invariant
            1 <= i <= args@.len(),
            dv == args.deep_view(),
            dv.len() == args@.len(),
            greet_options(dv.skip(1), None, None) == greet_options(
                dv.skip(i as int),
                language,
                file.deep_view(),
            ),
        decreases args@.len() - i,
    {
        proof {
            assert(dv.skip(i as int).len() == dv.len() - i);
            assert(dv.skip(i as int)[0] == dv[i as int]);
            assert(dv[i as int] == args@[i as int]@);
        }
        let tok = &args[i];
        if token_is(tok, "--language") || token_is(tok, "-l") {
            if language.is_some() {
                return Err(ParseError::DuplicateOption);
            }
            if i + 1 >= args.len() {
                return Err(ParseError::MissingValue);
            }
            proof {
                assert(dv.skip(i as int)[1] == dv[i + 1]);
                lemma_seq_skip_of_skip(dv, i as int, 2);
            }
            match language_of_token(&args[i + 1]) {
                Some(l) => {
                    language = Some(l);
                },
                None => {
                    return Err(ParseError::InvalidLanguage);
                },
            }
            i = i + 2;
        } else if token_is(tok, "--file") || token_is(tok, "-f") {
            if file.is_some() {
                return Err(ParseError::DuplicateOption);
            }
            if i + 1 >= args.len() {
                return Err(ParseError::MissingValue);
            }
            proof {
                assert(dv.skip(i as int)[1] == dv[i + 1]);
                lemma_seq_skip_of_skip(dv, i as int, 2);
            }
            file = Some(args[i + 1].clone());
            i = i + 2;
        } else {
            return Err(ParseError::UnknownOption);
        }
    }
    proof {
        assert(dv.skip(i as int).len() == 0);
    }
    if language.is_some() && file.is_some() {
        Err(ParseError::ConflictingOptions)
    } else {
        Ok(Command::Greet { language, file })
    }
}

/// Parses the tokens after `completion` and validates them.
fn parse_completion_rest(args: &Vec<String>) -> (r: Result<Command, ParseError>)
    requires
        args@.len() >= 1,
    ensures
        result_model(r) == completion_command(args.deep_view().skip(1)),
{
    let ghost dv = args.deep_view();
    let mut shell: Option<ShellKind> = None;
    let mut i: usize = 1;
    while i < args.len()
        invariant
            1 <= i <= args@.len(),
            dv == args.deep_view(),
            dv.len() == args@.len(),
            completion_options(dv.skip(1), None) == completion_options(
                dv.skip(i as int),
                shell,
            ),
        decreases args@.len() - i,
    {
        proof {
            assert(dv.skip(i as int).len() == dv.len() - i);
            assert(dv.skip(i as int)[0] == dv[i as int]);
            assert(dv[i as int] == args@[i as int]@);
        }
        let tok = &args[i];
        if token_is(tok, "--shell") || token_is(tok, "-s") {
            if shell.is_some() {
                return Err(ParseError::DuplicateOption);
            }
            if i + 1 >= args.len() {
                return Err(ParseError::MissingValue);
            }
            proof {
                assert(dv.skip(i as int)[1] == dv[i + 1]);
                lemma_seq_skip_of_skip(dv, i as int, 2);
            }
            match shell_of_token(&args[i + 1]) {
                Some(s) => {
                    shell = Some(s);
                },
                None => {
                    return Err(ParseError::InvalidShell);
                },
            }
            i = i + 2;
        } else {
            return Err(ParseError::UnknownOption);
        }
    }
    proof {
        assert(dv.skip(i as int).len() == 0);
    }
    match shell {
        Some(s) => Ok(Command::Completion { shell: s }),
        None => Err(ParseError::MissingShell),
    }
}

/// Parses the argument list (without the program name) into a validated
/// [`Command`], or reports exactly the validation failure the grammar
/// assigns to it.
pub fn parse_args(args: &Vec<String>) -> (r: Result<Command, ParseError>)
    ensures
        result_model(r) == parse_command(args.deep_view()),
{
    let ghost dv = args.deep_view();
    if args.len() == 0 {
        return Err(ParseError::MissingSubcommand);
    }
    proof {
        assert(dv[0] == args@[0]@);
    }
    let sub = &args[0];
    if token_is(sub, "greet") {
        parse_greet_rest(args)
    } else if token_is(sub, "completion") {
        parse_completion_rest(args)
    } else {
        Err(ParseError::UnknownSubcommand)
    }
}

} // verus!
