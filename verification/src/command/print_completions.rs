//! The command that prints shell completions.
use vstd::prelude::*;

verus! {

/// The name of the program in the completions.
pub const PROGRAM_NAME: &'static str = "ab-av1";

/// A shell that completions can be made for.
#[verifier::external_type_specification]
#[verifier::external_body]
pub struct ExShell(clap_complete::Shell);

/// The command line of the command.
pub struct Args {
    pub shell: clap_complete::Shell,
}

/// Which completions to print.
#[derive(Debug, Clone, Copy)]
pub struct PrintCompletionsConfig {
    pub shell: clap_complete::Shell,
}

impl From<Args> for PrintCompletionsConfig {
    fn from(args: Args) -> (r: PrintCompletionsConfig) {
        PrintCompletionsConfig { shell: args.shell }
    }
}

impl vstd::std_specs::convert::FromSpecImpl<Args> for PrintCompletionsConfig {
    open spec fn obeys_from_spec() -> bool {
        true
    }

    open spec fn from_spec(args: Args) -> PrintCompletionsConfig {
        PrintCompletionsConfig { shell: args.shell }
    }
}

/// The completions are for the shell that was asked for.
pub proof fn shell_is_the_one_asked_for(args: Args)
    ensures
        <PrintCompletionsConfig as vstd::std_specs::convert::FromSpec<Args>>::from_spec(args).shell
            == args.shell,
{
}

} // verus!
