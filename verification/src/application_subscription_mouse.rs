//! A program that reports every mouse button that goes down.

use crate::command::{Command, Step};
use crate::event::{button_name, classify, debug_button, input_of, Input};
use crate::subscription::{Filter, Source};
use crate::widget::{plain_text, Element, ElementView, Text};
use iced_native::event::Status;
use iced_native::Event;
use vstd::prelude::*;
use vstd::string::*;

verus! {

/// The program keeps no state.
#[derive(Debug, Clone, Copy, PartialEq, Eq)]
pub struct SubscriptionMouse;

#[derive(Debug, Clone, Copy, PartialEq, Eq)]
pub enum Message {
    /// The button went down.
    MouseButtonPressed(iced_native::mouse::Button),
}

/// The message, if any, that an input gives rise to: a press of a mouse
/// button is passed on, everything else is dropped.
pub open spec fn select(input: Input) -> Option<Message> {
    match input {
        Input::MouseButtonPressed(button) => Some(Message::MouseButtonPressed(button)),
        _ => None,
    }
}

/// The line printed for a message.
pub open spec fn line_for(message: Message) -> Seq<char> {
    match message {
        Message::MouseButtonPressed(button) => "MouseButtonPressed: "@ + button_name(button),
    }
}

/// Turns an input into the message that [`select`] gives for it.
pub fn on_input(input: Input) -> (message: Option<Message>)
    ensures
        message == select(input),
        message is Some <==> Filter::MouseButtonPressed.lets_through(input),
{
    match input {
        Input::MouseButtonPressed(button) => Some(Message::MouseButtonPressed(button)),
        _ => None,
    }
}

/// The filter that the program hands to the runtime: it lets the presses
/// of a mouse button through, whatever their status.
pub fn mouse_pressed(event: Event, _status: Status) -> (message: Option<Message>)
    ensures
        message == select(input_of(event)),
        message is Some <==> Filter::MouseButtonPressed.lets_through(input_of(event)),
{
    on_input(classify(event))
}

impl SubscriptionMouse {
    /// The window's title.
    pub open spec fn spec_title() -> Seq<char> {
        "Subscription Mouse"@
    }

    /// What the window shows: nothing but an empty text.
    pub open spec fn layout() -> ElementView<Message> {
        plain_text(""@)
    }

    /// The program at its start, and the command to run first: none.
    pub fn new() -> (start: (Self, Command<Message>))
        ensures
            start.1 is Idle,
    {
        (SubscriptionMouse, Command::Idle)
    }

    /// The window's title.
    pub fn title(&self) -> (title: String)
        ensures
            title@ == Self::spec_title(),
    {
        "Subscription Mouse".to_owned()
    }

    /// Handles a message: the button gets a line of its own.
    pub fn update(&self, message: Message) -> (step: Step<Message>)
        ensures
            step.only_prints(line_for(message)),
    {
        match message {
            Message::MouseButtonPressed(button) => Step {
                line: Some(
                    "MouseButtonPressed: ".to_owned().concat(debug_button(button).as_str()),
                ),
                command: Command::Idle,
            },
        }
    }

    /// What the program listens to: the runtime's events, filtered by
    /// [`mouse_pressed`].
    pub fn subscription(&self) -> (sources: Vec<Source>)
        ensures
            sources@ == seq![Source::Events(Filter::MouseButtonPressed)],
    {
        let mut sources: Vec<Source> = Vec::new();
        sources.push(Source::Events(Filter::MouseButtonPressed));
        sources
    }

    /// Describes the window's content.
    pub fn view(&self) -> (tree: Element<Message>)
        ensures
            tree@ == Self::layout(),
    {
        Element::Text(Text { content: "".to_owned(), size: None, color: None })
    }
}

} // verus!
