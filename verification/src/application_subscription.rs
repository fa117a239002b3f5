//! A program that is told once a second that a second has passed.

use crate::command::{Command, Step};
use crate::subscription::Source;
use crate::widget::{plain_text, Element, ElementView, Text};
use std::time::Instant;
use vstd::prelude::*;

verus! {

/// The program keeps no state.
#[derive(Debug, Clone, Copy, PartialEq, Eq)]
pub struct ApplicationSubscription;

#[derive(Debug, Clone, Copy, PartialEq, Eq)]
pub enum Message {
    /// A second has passed.
    Tick,
}

/// The message for a tick, whenever it came.
pub fn on_tick(_now: Instant) -> (message: Message)
    ensures
        message == Message::Tick,
{
    Message::Tick
}

impl ApplicationSubscription {
    /// The window's title.
    pub open spec fn spec_title() -> Seq<char> {
        "Application Subscription"@
    }

    /// What the window shows: nothing but an empty text.
    pub open spec fn layout() -> ElementView<Message> {
        plain_text(""@)
    }

    /// The program at its start, and the command to run first: none.
    pub fn new() -> (start: (Self, Command<Message>))
        ensures
            start.1 is Idle,
    {
        (ApplicationSubscription, Command::Idle)
    }

    /// The window's title.
    pub fn title(&self) -> (title: String)
        ensures
            title@ == Self::spec_title(),
    {
        "Application Subscription".to_owned()
    }

    /// Handles a message: a tick gets a line of its own.
    pub fn update(&self, message: Message) -> (step: Step<Message>)
        ensures
            step.only_prints("Tick"@),
    {
        match message {
            Message::Tick => Step { line: Some("Tick".to_owned()), command: Command::Idle },
        }
    }

    /// What the program listens to: a tick every second.
    pub fn subscription(&self) -> (sources: Vec<Source>)
        ensures
            sources@ == seq![Source::Every { secs: 1 }],
    {
        let mut sources: Vec<Source> = Vec::new();
        sources.push(Source::Every { secs: 1 });
        sources
    }

    /// Describes the window's content.
    pub fn view(&self) -> (tree: Element<Message>)
        ensures
            tree@ == Self::layout(),
    {
        Element::Text(Text { content: "".to_owned(), size: None, color: None })
    }
}

} // verus!
