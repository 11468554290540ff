//! The command composer: the fixed built-in commands merged with a
//! host-supplied command enumeration.
//!
//! A host program plugs its own enumeration in as the `Custom` branch of
//! [`Commands`]; a host with no commands of its own plugs in [`Empty`].
//! Executing a combined value routes a built-in command to the executor and
//! treats any custom command as an explicit extension point: the composer
//! performs no action for it and reports success, leaving its meaning
//! entirely to the host.

use vstd::prelude::*;

use crate::executor::{completed_model, init_model, CommonCommands, Execution};

verus! {

/// The combined command surface: one of the built-in commands, or one of
/// the host program's own.
#[derive(Debug)]
pub enum Commands<T> {
    /// A built-in command.
    Common(CommonCommands),
    /// A command of the host program, outside this library's knowledge.
    Custom(T),
}

/// A command set with no commands: for host programs that add none of
/// their own. It is a sentinel that cannot be constructed — its field is
/// private and the library never makes a value of it — so a
/// `Commands<Empty>` is always the `Common` branch.
#[derive(Debug)]
pub struct Empty {
    #[allow(dead_code)]
    never: (),
}

impl<T> Commands<T> {
    /// Begin executing this command for the program called `name`.
    ///
    /// A built-in command starts its execution; a custom command maps to a
    /// completed execution, with no build or install action ever issued.
    pub fn execute(&self, name: &str) -> (r: Execution)
        ensures
            self matches Commands::Common(c) ==> r@ == init_model(c@, name@),
            self matches Commands::Custom(_) ==> r@ == completed_model(),
    {
        match self {
            Commands::Common(c) => c.execute(name),
            Commands::Custom(_) => Execution::completed(),
        }
    }
}

} // verus!
