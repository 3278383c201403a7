//! How the build tool is invoked for an exercise.

use vstd::prelude::*;
use vstd::string::StringExecFns;

verus! {

/// Seconds after which a run of the build tool is given up.
pub const CARGO_TIMEOUT_SECONDS: u64 = 60;

/// What the build tool is asked to do with an exercise.
#[derive(Clone, Copy, Debug, PartialEq, Eq, Structural)]
pub enum CargoCommand {
    /// Run the exercise's tests and show what they print.
    Test,
    /// Run the exercise.
    Run,
    /// Lint the exercise with every lint switched on.
    Clippy,
}

impl CargoCommand {
    /// The arguments of the build tool for this command, the subcommand
    /// first.
    pub open spec fn arguments_spec(self) -> Seq<Seq<char>> {
        match self {
            CargoCommand::Test => seq!["test"@, "--"@, "--nocapture"@],
            CargoCommand::Run => seq!["run"@],
            CargoCommand::Clippy => seq!["clippy"@, "--"@, "-W"@, "clippy::all"@],
        }
    }

    /// The arguments of the build tool for this command, the subcommand
    /// first.
    pub fn arguments(&self) -> (args: Vec<&'static str>)
        ensures
            args.deep_view() == self.arguments_spec(),
    {
        let mut args: Vec<&'static str> = Vec::new();
        match self {
            CargoCommand::Test => {
                args.push("test");
                args.push("--");
                args.push("--nocapture");
            },
            CargoCommand::Run => {
                args.push("run");
            },
            CargoCommand::Clippy => {
                args.push("clippy");
                args.push("--");
                args.push("-W");
                args.push("clippy::all");
            },
        }
        assert(args.deep_view() =~= self.arguments_spec());
        args
    }
}

/// Everything a run printed: its standard output followed by its standard
/// error.
pub fn combined_output(stdout: &str, stderr: &str) -> (output: String)
    ensures
        output@ == stdout@ + stderr@,
{
    let mut output = String::from_str(stdout);
    output.append(stderr);
    output
}

} // verus!
