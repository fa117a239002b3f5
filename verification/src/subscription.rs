//! A plain description of what a program listens to while it runs.

use crate::application_subscription_custom_recipe::Timer;
use crate::event::Input;
use vstd::prelude::*;

verus! {

/// `std::time::Instant`, a reading of the clock; nothing is known of what
/// one holds.
#[verifier::external_type_specification]
#[verifier::external_body]
pub struct ExInstant(std::time::Instant);

/// A filter on the runtime's events.
#[derive(Debug, Clone, Copy, PartialEq, Eq)]
pub enum Filter {
    /// Lets the presses of a key through.
    KeyPressed,
    /// Lets the presses of a mouse button through.
    MouseButtonPressed,
}

impl Filter {
    /// Whether the filter lets `input` through: the one for keys lets the
    /// presses of a key through and nothing else, the one for the mouse the
    /// presses of a mouse button and nothing else. What is held down with a
    /// key makes no difference.
    pub open spec fn lets_through(self, input: Input) -> bool {
        match self {
            Filter::KeyPressed => input is KeyPressed,
            Filter::MouseButtonPressed => input is MouseButtonPressed,
        }
    }
}

/// One stream of happenings that a program asks the runtime for.
#[derive(Debug, Clone, Copy, PartialEq, Eq)]
pub enum Source {
    /// A tick every `secs` seconds.
    Every { secs: u64 },
    /// The runtime's events, as far as the filter lets them through.
    Events(Filter),
    /// A stream of the program's own making.
    Recipe(Timer),
}

} // verus!
