//! A plain description of the work a program hands to the runtime after it
//! has handled a message.

use vstd::prelude::*;

verus! {

/// A pause, and the line to print when it is over.
#[derive(Debug, Clone, Copy, PartialEq, Eq)]
pub struct Nap {
    pub secs: u64,
    pub farewell: &'static str,
}

/// What the runtime is to do next.
#[derive(Debug, PartialEq, Eq)]
pub enum Command<M> {
    /// Nothing.
    Idle,
    /// Take the nap, then send the message.
    Perform(Nap, M),
}

/// What handling one message amounts to: the line the program prints, if
/// any, and the command it hands back.
#[derive(Debug, PartialEq, Eq)]
pub struct Step<M> {
    pub line: Option<String>,
    pub command: Command<M>,
}

impl<M> Step<M> {
    /// Whether the step prints exactly `line` and asks for nothing more.
    pub open spec fn only_prints(self, line: Seq<char>) -> bool {
        &&& self.line matches Some(printed)
        &&& printed@ == line
        &&& self.command is Idle
    }
}

} // verus!
