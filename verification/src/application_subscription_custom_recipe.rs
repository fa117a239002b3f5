//! A program that listens to a stream of its own making: a timer that
//! reports the time once a second.

use crate::command::{Command, Step};
use crate::subscription::Source;
use crate::widget::{plain_text, Element, ElementView, Text};
use std::time::Instant;
use vstd::prelude::*;
use vstd::string::*;

verus! {

/// A stream that reports the present instant once every period.
#[derive(Debug, Clone, Copy, PartialEq, Eq)]
pub struct Timer;

impl Timer {
    /// The seconds between two reports.
    pub open spec fn spec_period_secs(&self) -> u64 {
        1
    }

    /// The seconds between two reports.
    #[verifier::when_used_as_spec(spec_period_secs)]
    pub fn period_secs(&self) -> (secs: u64)
        ensures
            secs == self.spec_period_secs(),
    {
        1
    }
}

/// The program keeps no state.
#[derive(Debug, Clone, Copy, PartialEq, Eq)]
pub struct SubscriptionCustomRecipe;

#[derive(Debug, Clone, Copy, PartialEq, Eq)]
pub enum Message {
    /// The timer gave this instant.
    Tick(Instant),
}

/// An instant as it is written out.
pub uninterp spec fn instant_text(instant: Instant) -> Seq<char>;

/// The line printed for a message.
pub open spec fn line_for(message: Message) -> Seq<char> {
    match message {
        Message::Tick(instant) => "Tick "@ + instant_text(instant),
    }
}

/// Formats an instant with the `Debug` impl of `std::time::Instant`. What
/// that writes differs from one platform to the next, but for one instant
/// it is the same at every call. The result is taken as the meaning of
/// `instant_text`.
#[verifier::external_body]
fn debug_instant(instant: Instant) -> (text: String)
    ensures
        text@ == instant_text(instant),
{
    format!("{instant:?}")
}

/// The line printed for a tick, given the instant as it is written out.
pub fn tick_line(instant: &str) -> (line: String)
    ensures
        line@ == "Tick "@ + instant@,
{
    "Tick ".to_owned().concat(instant)
}

impl SubscriptionCustomRecipe {
    /// The window's title.
    pub open spec fn spec_title() -> Seq<char> {
        "Subscription Custom Recipe"@
    }

    /// What the window shows: nothing but an empty text.
    pub open spec fn layout() -> ElementView<Message> {
        plain_text(""@)
    }

    /// The program at its start, and the command to run first: none.
    pub fn new() -> (start: (Self, Command<Message>))
        ensures
            start.1 is Idle,
    {
        (SubscriptionCustomRecipe, Command::Idle)
    }

    /// The window's title.
    pub fn title(&self) -> (title: String)
        ensures
            title@ == Self::spec_title(),
    {
        "Subscription Custom Recipe".to_owned()
    }

    /// Handles a message: the instant that came with it gets a line of its
    /// own, after the word `Tick` and a space.
    pub fn update(&self, message: Message) -> (step: Step<Message>)
        ensures
            step.only_prints(line_for(message)),
    {
        match message {
            Message::Tick(instant) => Step {
                line: Some(tick_line(debug_instant(instant).as_str())),
                command: Command::Idle,
            },
        }
    }

    /// What the program listens to: its timer.
    pub fn subscription(&self) -> (sources: Vec<Source>)
        ensures
            sources@ == seq![Source::Recipe(Timer)],
    {
        let mut sources: Vec<Source> = Vec::new();
        sources.push(Source::Recipe(Timer));
        sources
    }

    /// Describes the window's content.
    pub fn view(&self) -> (tree: Element<Message>)
        ensures
            tree@ == Self::layout(),
    {
        Element::Text(Text { content: "".to_owned(), size: None, color: None })
    }
}

} // verus!
