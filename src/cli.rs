//! The command line of the server, as parsed values.
use vstd::prelude::*;

verus! {

/// Runs the language server over standard input and output.
#[derive(Debug, Clone, Copy, PartialEq, Eq, Structural)]
pub struct ServeCommand {}

#[derive(Debug, Clone, Copy, PartialEq, Eq, Structural)]
pub enum CliSubcommand {
    Serve(ServeCommand),
}

/// A parsed command line.
#[derive(Debug, Clone, Copy, PartialEq, Eq, Structural)]
pub struct Cli {
    subcommand: CliSubcommand,
}

impl Cli {
    pub closed spec fn spec_subcommand(self) -> CliSubcommand {
        self.subcommand
    }

    /// A command line that runs the given subcommand.
    pub fn new(subcommand: CliSubcommand) -> (r: Self)
        ensures
            r.spec_subcommand() == subcommand,
    {
        Cli { subcommand }
    }

    pub fn subcommand(&self) -> (r: CliSubcommand)
        ensures
            r == self.spec_subcommand(),
    {
        self.subcommand
    }
}

} // verus!
