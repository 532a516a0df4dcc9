//! The command grammar described as plain data, for the external
//! shell-completion collaborator: subcommand names, option names and
//! aliases, and the enumerated value choices. The collaborator turns this
//! description and a shell selector into the completion script; this
//! library only states what the grammar is.

use vstd::prelude::*;

use crate::command::ShellKind;

verus! {

/// One option of a subcommand: its long name (without the leading
/// dashes), its one-letter alias, the closed set of values it accepts
/// (empty when any value is accepted), and whether it must be given.
pub struct OptionDef {
    pub long: String,
    pub short: char,
    pub choices: Vec<String>,
    pub required: bool,
}

/// One subcommand: its name and its options.
pub struct SubcommandDef {
    pub name: String,
    pub options: Vec<OptionDef>,
}

/// The canonical argument token of a shell kind.
pub open spec fn shell_token_text(shell: ShellKind) -> Seq<char> {
    match shell {
        ShellKind::Bash => "bash"@,
        ShellKind::Zsh => "zsh"@,
        ShellKind::Fish => "fish"@,
        ShellKind::PowerShell => "powershell"@,
        ShellKind::Elvish => "elvish"@,
    }
}

/// Returns the canonical token of `shell`, as [`shell_token_text`] says.
pub fn shell_token(shell: ShellKind) -> (r: String)
    ensures
        r@ == shell_token_text(shell),
{
    match shell {
        ShellKind::Bash => "bash".to_owned(),
        ShellKind::Zsh => "zsh".to_owned(),
        ShellKind::Fish => "fish".to_owned(),
        ShellKind::PowerShell => "powershell".to_owned(),
        ShellKind::Elvish => "elvish".to_owned(),
    }
}

/// Returns the five supported shell tokens, in the order of
/// [`ShellKind`].
pub fn shell_choice_tokens() -> (r: Vec<String>)
    ensures
        r@.len() == 5,
        r@[0]@ == shell_token_text(ShellKind::Bash),
        r@[1]@ == shell_token_text(ShellKind::Zsh),
        r@[2]@ == shell_token_text(ShellKind::Fish),
        r@[3]@ == shell_token_text(ShellKind::PowerShell),
        r@[4]@ == shell_token_text(ShellKind::Elvish),
{
    let mut v: Vec<String> = Vec::new();
    v.push(shell_token(ShellKind::Bash));
    v.push(shell_token(ShellKind::Zsh));
    v.push(shell_token(ShellKind::Fish));
    v.push(shell_token(ShellKind::PowerShell));
    v.push(shell_token(ShellKind::Elvish));
    v
}

/// Returns the full command grammar: the `greet` subcommand with its
/// optional `--language`/`-l` (`en` or `ja`) and `--file`/`-f`, and the
/// `completion` subcommand with its required `--shell`/`-s`.
pub fn grammar() -> (g: Vec<SubcommandDef>)
    ensures
        g@.len() == 2,
        g@[0].name@ == "greet"@,
        g@[0].options@.len() == 2,
        g@[0].options@[0].long@ == "language"@,
        g@[0].options@[0].short == 'l',
        g@[0].options@[0].choices@.len() == 2,
        g@[0].options@[0].choices@[0]@ == "en"@,
        g@[0].options@[0].choices@[1]@ == "ja"@,
        !g@[0].options@[0].required,
        g@[0].options@[1].long@ == "file"@,
        g@[0].options@[1].short == 'f',
        g@[0].options@[1].choices@.len() == 0,
        !g@[0].options@[1].required,
        g@[1].name@ == "completion"@,
        g@[1].options@.len() == 1,
        g@[1].options@[0].long@ == "shell"@,
        g@[1].options@[0].short == 's',
        g@[1].options@[0].choices@.len() == 5,
        g@[1].options@[0].choices@[0]@ == "bash"@,
        g@[1].options@[0].choices@[1]@ == "zsh"@,
        g@[1].options@[0].choices@[2]@ == "fish"@,
        g@[1].options@[0].choices@[3]@ == "powershell"@,
        g@[1].options@[0].choices@[4]@ == "elvish"@,
        g@[1].options@[0].required,
{
    let mut language_choices: Vec<String> = Vec::new();
    language_choices.push("en".to_owned());
    language_choices.push("ja".to_owned());
    let language_option = OptionDef {
        long: "language".to_owned(),
        short: 'l',
        choices: language_choices,
        required: false,
    };
    let file_option = OptionDef {
        long: "file".to_owned(),
        short: 'f',
        choices: Vec::new(),
        required: false,
    };
    let mut greet_options: Vec<OptionDef> = Vec::new();
    greet_options.push(language_option);
    greet_options.push(file_option);
    let greet_def = SubcommandDef { name: "greet".to_owned(), options: greet_options };
    let shell_option = OptionDef {
        long: "shell".to_owned(),
        short: 's',
        choices: shell_choice_tokens(),
        required: true,
    };
    let mut completion_options: Vec<OptionDef> = Vec::new();
    completion_options.push(shell_option);
    let completion_def = SubcommandDef {
        name: "completion".to_owned(),
        options: completion_options,
    };
    let mut g: Vec<SubcommandDef> = Vec::new();
    g.push(greet_def);
    g.push(completion_def);
    g
}

} // verus!
