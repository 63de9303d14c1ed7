//! A small calculator front end: two integer options, one arithmetic
//! operation, and the line that reports it.
use vstd::prelude::*;

pub mod commands;
pub mod decimal;

pub use commands::add::AddOptions;
pub use commands::sub::SubOptions;

verus! {

/// The calculator's subcommands, each with its options.
#[derive(Clone, Copy, Debug, PartialEq, Eq, Structural)]
pub enum SubCommands {
    Add(AddOptions),
    Sub(SubOptions),
}

/// The line that reports the operation `cmd` selects.
pub open spec fn report(cmd: SubCommands) -> Seq<char> {
    match cmd {
        SubCommands::Add(o) => commands::add::sum_line(o.num1, o.num2),
        SubCommands::Sub(o) => commands::sub::difference_line(o.num1, o.num2),
    }
}

/// Runs the subcommand `cmd`: the line to print for it.
pub fn run(cmd: SubCommands) -> (r: String)
    ensures
        r@ == report(cmd),
{
    match cmd {
        SubCommands::Add(o) => commands::add::execute(o),
        SubCommands::Sub(o) => commands::sub::execute(o),
    }
}

} // verus!
