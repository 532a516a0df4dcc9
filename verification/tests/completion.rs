//! The completion collaborator fed with the library's grammar: the
//! generated script must describe both subcommands.

use greet_cli::grammar::{grammar, SubcommandDef};

fn clap_command_of(grammar: &[SubcommandDef]) -> clap::Command {
    let mut cmd = clap::Command::new("greet_cli");
    for sub in grammar {
        let mut sub_cmd = clap::Command::new(sub.name.clone());
        for opt in &sub.options {
            let mut arg = clap::Arg::new(opt.long.clone())
                .long(opt.long.clone())
                .short(opt.short);
            if !opt.choices.is_empty() {
                arg = arg.value_parser(clap::builder::PossibleValuesParser::new(
                    opt.choices.clone(),
                ));
            }
            if opt.required {
                arg = arg.required(true);
            }
            sub_cmd = sub_cmd.arg(arg);
        }
        cmd = cmd.subcommand(sub_cmd);
    }
    cmd
}

#[test]
fn bash_completion_script_names_both_subcommands() {
    let g = grammar();
    let mut cmd = clap_command_of(&g);
    let mut buf: Vec<u8> = Vec::new();
    clap_complete::generate(clap_complete::Shell::Bash, &mut cmd, "greet_cli", &mut buf);
    let script = String::from_utf8(buf).unwrap();
    assert!(!script.is_empty());
    assert!(script.contains("greet"));
    assert!(script.contains("completion"));
}

#[test]
fn zsh_completion_script_names_the_shell_choices() {
    let g = grammar();
    let mut cmd = clap_command_of(&g);
    let mut buf: Vec<u8> = Vec::new();
    clap_complete::generate(clap_complete::Shell::Zsh, &mut cmd, "greet_cli", &mut buf);
    let script = String::from_utf8(buf).unwrap();
    assert!(!script.is_empty());
    assert!(script.contains("powershell"));
    assert!(script.contains("elvish"));
}
