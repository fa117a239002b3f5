//! A program with one button: a click makes it rest for a second and then
//! tell itself that it has woken up.

use crate::command::{Command, Nap, Step};
use crate::widget::{plain_button, Element, ElementView, PushButton, Text};
use vstd::prelude::*;

verus! {

/// The program keeps no state of its own.
#[derive(Debug, Clone, Copy, PartialEq, Eq)]
pub struct MyApplication;

#[derive(Debug, Clone, Copy, PartialEq, Eq)]
pub enum Message {
    /// The button was clicked.
    ButtonClicked,
    /// The rest that a click started is over.
    AwakeFromSleep,
}

/// Whether `nap` is the one-second rest that ends with a greeting.
pub open spec fn is_one_second_nap(nap: Nap) -> bool {
    nap.secs == 1 && nap.farewell@ == "Hello, from 1 sec sleep!"@
}

/// The rest that a click starts: one second, then a greeting.
pub fn sleep_for_a_second() -> (nap: Nap)
    ensures
        is_one_second_nap(nap),
{
    Nap { secs: 1, farewell: "Hello, from 1 sec sleep!" }
}

impl MyApplication {
    /// The window's title.
    pub open spec fn spec_title() -> Seq<char> {
        "MyApplication"@
    }

    /// What the window shows: a button that reports a click.
    pub open spec fn layout() -> ElementView<Message> {
        plain_button("click"@, Message::ButtonClicked)
    }

    /// What `step` has to be after `message`: a click prints a line and
    /// starts the rest, after which the program is told that it woke up;
    /// waking up prints nothing and asks for nothing.
    pub open spec fn reacts(message: Message, step: Step<Message>) -> bool {
        match message {
            Message::ButtonClicked => {
                &&& step.line matches Some(line)
                &&& line@ == "Clicked!"@
                &&& step.command matches Command::Perform(nap, then)
                &&& is_one_second_nap(nap)
                &&& then == Message::AwakeFromSleep
            },
            Message::AwakeFromSleep => step.line is None && step.command is Idle,
        }
    }

    /// The program at its start, and the command to run first: none.
    pub fn new() -> (start: (Self, Command<Message>))
        ensures
            start.1 is Idle,
    {
        (MyApplication, Command::Idle)
    }

    /// The window's title.
    pub fn title(&self) -> (title: String)
        ensures
            title@ == Self::spec_title(),
    {
        "MyApplication".to_owned()
    }

    /// Handles a message.
    pub fn update(&self, message: Message) -> (step: Step<Message>)
        ensures
            Self::reacts(message, step),
    {
        match message {
            Message::ButtonClicked => Step {
                line: Some("Clicked!".to_owned()),
                command: Command::Perform(sleep_for_a_second(), Message::AwakeFromSleep),
            },
            Message::AwakeFromSleep => Step { line: None, command: Command::Idle },
        }
    }

    /// Describes the window's content.
    pub fn view(&self) -> (tree: Element<Message>)
        ensures
            tree@ == Self::layout(),
    {
        Element::PushButton(
            PushButton {
                content: Text { content: "click".to_owned(), size: None, color: None },
                padding: None,
                on_press: Some(Message::ButtonClicked),
            },
        )
    }
}

} // verus!
