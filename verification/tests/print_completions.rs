use ab_av1::command::print_completions::{Args, PrintCompletionsConfig, PROGRAM_NAME};
use clap_complete::Shell;

#[test]
fn args_lowers_to_print_completions_config() {
    let args = Args { shell: Shell::Zsh };
    let config = PrintCompletionsConfig::from(args);

    assert!(matches!(config.shell, Shell::Zsh));
}

#[test]
fn completions_are_for_the_program() {
    assert_eq!(PROGRAM_NAME, "ab-av1");
}
