//! A program that listens to three things at once: the clock, the keyboard
//! and the mouse.

use crate::command::{Command, Step};
use crate::event::{button_name, classify, debug_button, debug_key, input_of, key_name, Input};
use crate::subscription::{Filter, Source};
use crate::widget::{plain_text, Element, ElementView, Text};
use iced_native::event::Status;
use iced_native::keyboard::KeyCode;
use iced_native::Event;
use std::time::Instant;
use vstd::prelude::*;
use vstd::string::*;

verus! {

/// The program keeps no state.
#[derive(Debug, Clone, Copy, PartialEq, Eq)]
pub struct MultipleSubscription;

#[derive(Debug, Clone, Copy, PartialEq, Eq)]
pub enum Message {
    /// A second has passed.
    Tick,
    /// The key went down.
    KeyPressed(KeyCode),
    /// The mouse button went down.
    MouseButtonPressed(iced_native::mouse::Button),
}

/// The message, if any, that the keyboard filter makes of an input.
pub open spec fn select_key(input: Input) -> Option<Message> {
    match input {
        Input::KeyPressed { key_code, .. } => Some(Message::KeyPressed(key_code)),
        _ => None,
    }
}

/// The message, if any, that the mouse filter makes of an input.
pub open spec fn select_button(input: Input) -> Option<Message> {
    match input {
        Input::MouseButtonPressed(button) => Some(Message::MouseButtonPressed(button)),
        _ => None,
    }
}

/// The line printed for a message.
pub open spec fn line_for(message: Message) -> Seq<char> {
    match message {
        Message::Tick => "Tick"@,
        Message::KeyPressed(key) => "KeyPressed: "@ + key_name(key),
        Message::MouseButtonPressed(button) => "MouseButtonPressed: "@ + button_name(button),
    }
}

/// What the program listens to, in the order in which it asks for it.
pub open spec fn sources() -> Seq<Source> {
    seq![
        Source::Every { secs: 1 },
        Source::Events(Filter::KeyPressed),
        Source::Events(Filter::MouseButtonPressed),
    ]
}

/// The message for a tick, whenever it came.
pub fn on_tick(_now: Instant) -> (message: Message)
    ensures
        message == Message::Tick,
{
    Message::Tick
}

/// Turns an input into the message that [`select_key`] gives for it.
pub fn on_key_input(input: Input) -> (message: Option<Message>)
    ensures
        message == select_key(input),
        message is Some <==> Filter::KeyPressed.lets_through(input),
{
    match input {
        Input::KeyPressed { key_code, .. } => Some(Message::KeyPressed(key_code)),
        _ => None,
    }
}

/// Turns an input into the message that [`select_button`] gives for it.
pub fn on_button_input(input: Input) -> (message: Option<Message>)
    ensures
        message == select_button(input),
        message is Some <==> Filter::MouseButtonPressed.lets_through(input),
{
    match input {
        Input::MouseButtonPressed(button) => Some(Message::MouseButtonPressed(button)),
        _ => None,
    }
}

/// The keyboard filter that the program hands to the runtime.
pub fn key_pressed(event: Event, _status: Status) -> (message: Option<Message>)
    ensures
        message == select_key(input_of(event)),
        message is Some <==> Filter::KeyPressed.lets_through(input_of(event)),
{
    on_key_input(classify(event))
}

/// The mouse filter that the program hands to the runtime.
pub fn mouse_pressed(event: Event, _status: Status) -> (message: Option<Message>)
    ensures
        message == select_button(input_of(event)),
        message is Some <==> Filter::MouseButtonPressed.lets_through(input_of(event)),
{
    on_button_input(classify(event))
}

impl MultipleSubscription {
    /// The window's title.
    pub open spec fn spec_title() -> Seq<char> {
        "Multiple Subscription"@
    }

    /// What the window shows: nothing but an empty text.
    pub open spec fn layout() -> ElementView<Message> {
        plain_text(""@)
    }

    /// The program at its start, and the command to run first: none.
    pub fn new() -> (start: (Self, Command<Message>))
        ensures
            start.1 is Idle,
    {
        (MultipleSubscription, Command::Idle)
    }

    /// The window's title.
    pub fn title(&self) -> (title: String)
        ensures
            title@ == Self::spec_title(),
    {
        "Multiple Subscription".to_owned()
    }

    /// Handles a message: whatever happened gets a line of its
    /// own.
    pub fn update(&self, message: Message) -> (step: Step<Message>)
        ensures
            step.only_prints(line_for(message)),
    {
        let line = match message {
            Message::Tick => "Tick".to_owned(),
            Message::KeyPressed(key) => "KeyPressed: ".to_owned().concat(debug_key(key).as_str()),
            Message::MouseButtonPressed(button) => "MouseButtonPressed: ".to_owned().concat(
                debug_button(button).as_str(),
            ),
        };
        Step { line: Some(line), command: Command::Idle }
    }

    /// What the program listens to: a tick every second, the key presses
    /// that [`key_pressed`] lets through and the presses of a mouse button
    /// that [`mouse_pressed`] lets through.
    pub fn subscription(&self) -> (batch: Vec<Source>)
        ensures
            batch@ == sources(),
    {
        let tick = Source::Every { secs: 1 };
        let key_pressed = Source::Events(Filter::KeyPressed);
        let mouse_pressed = Source::Events(Filter::MouseButtonPressed);

        let mut batch: Vec<Source> = Vec::new();
        batch.push(tick);
        batch.push(key_pressed);
        batch.push(mouse_pressed);
        assert(batch@ =~= sources());
        batch
    }

    /// Describes the window's content.
    pub fn view(&self) -> (tree: Element<Message>)
        ensures
            tree@ == Self::layout(),
    {
        Element::Text(Text { content: "".to_owned(), size: None, color: None })
    }
}

} // verus!
