//! A program that reports every key that goes down.

use crate::command::{Command, Step};
use crate::event::{classify, debug_key, input_of, key_name, Input};
use crate::subscription::{Filter, Source};
use crate::widget::{plain_text, Element, ElementView, Text};
use iced_native::event::Status;
use iced_native::keyboard::KeyCode;
use iced_native::Event;
use vstd::prelude::*;
use vstd::string::*;

verus! {

/// The program keeps no state.
#[derive(Debug, Clone, Copy, PartialEq, Eq)]
pub struct SubscriptionKeyboard;

#[derive(Debug, Clone, Copy, PartialEq, Eq)]
pub enum Message {
    /// The key went down.
    KeyPressed(KeyCode),
}

/// The message, if any, that an input gives rise to: a key press is passed
/// on, whatever was held down with it, and everything else is dropped.
pub open spec fn select(input: Input) -> Option<Message> {
    match input {
        Input::KeyPressed { key_code, .. } => Some(Message::KeyPressed(key_code)),
        _ => None,
    }
}

/// The line printed for a message.
pub open spec fn line_for(message: Message) -> Seq<char> {
    match message {
        Message::KeyPressed(key) => "KeyPressed: "@ + key_name(key),
    }
}

/// Turns an input into the message that [`select`] gives for it.
pub fn on_input(input: Input) -> (message: Option<Message>)
    ensures
        message == select(input),
        message is Some <==> Filter::KeyPressed.lets_through(input),
{
    match input {
        Input::KeyPressed { key_code, .. } => Some(Message::KeyPressed(key_code)),
        _ => None,
    }
}

/// The filter that the program hands to the runtime: it lets key presses
/// through, whatever their status.
pub fn key_pressed(event: Event, _status: Status) -> (message: Option<Message>)
    ensures
        message == select(input_of(event)),
        message is Some <==> Filter::KeyPressed.lets_through(input_of(event)),
{
    on_input(classify(event))
}

impl SubscriptionKeyboard {
    /// The window's title.
    pub open spec fn spec_title() -> Seq<char> {
        "Subscription Keyboard"@
    }

    /// What the window shows: nothing but an empty text.
    pub open spec fn layout() -> ElementView<Message> {
        plain_text(""@)
    }

    /// The program at its start, and the command to run first: none.
    pub fn new() -> (start: (Self, Command<Message>))
        ensures
            start.1 is Idle,
    {
        (SubscriptionKeyboard, Command::Idle)
    }

    /// The window's title.
    pub fn title(&self) -> (title: String)
        ensures
            title@ == Self::spec_title(),
    {
        "Subscription Keyboard".to_owned()
    }

    /// Handles a message: the key gets a line of its own.
    pub fn update(&self, message: Message) -> (step: Step<Message>)
        ensures
            step.only_prints(line_for(message)),
    {
        match message {
            Message::KeyPressed(key) => Step {
                line: Some("KeyPressed: ".to_owned().concat(debug_key(key).as_str())),
                command: Command::Idle,
            },
        }
    }

    /// What the program listens to: the runtime's events, filtered by
    /// [`key_pressed`].
    pub fn subscription(&self) -> (sources: Vec<Source>)
        ensures
            sources@ == seq![Source::Events(Filter::KeyPressed)],
    {
        let mut sources: Vec<Source> = Vec::new();
        sources.push(Source::Events(Filter::KeyPressed));
        sources
    }

    /// Describes the window's content.
    pub fn view(&self) -> (tree: Element<Message>)
        ensures
            tree@ == Self::layout(),
    {
        Element::Text(Text { content: "".to_owned(), size: None, color: None })
    }
}

} // verus!
