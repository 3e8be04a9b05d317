use vstd::prelude::*;

verus! {

/// Global flags that apply across every subcommand.
pub struct GlobalConfigArgs {
    /// Enable verbose output
    pub verbose: bool,
}

/// One parsed subcommand with its arguments.
pub enum Command {
    /// Build a container image from the directory at `path`.
    Build { path: String },
    /// Build, run and test a container image, cleaning up afterwards.
    Test { path: String, bash: bool },
    /// Dump a script's argument schema and render it as a markdown table.
    ArgparseMd { python_file: String },
}

/// The fully parsed command line.
pub struct Args {
    pub command: Command,
    pub global_options: GlobalConfigArgs,
}

/// The process exit code for an outcome: 0 on success, 1 on any
/// propagated error.
pub fn exit_code(succeeded: bool) -> (code: i32)
    ensures
        code == if succeeded { 0int } else { 1int },
{
    if succeeded {
        0
    } else {
        1
    }
}

} // verus!
