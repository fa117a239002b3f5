//! The smallest program: one button, and a line printed when it is pressed.

use crate::widget::{plain_button, Element, ElementView, PushButton, Text};
use vstd::prelude::*;

verus! {

/// The program keeps no state of its own.
#[derive(Debug, Clone, Copy, PartialEq, Eq)]
pub struct MyButton;

#[derive(Debug, Clone, Copy, PartialEq, Eq)]
pub enum Message {
    ButtonPressed,
}

impl MyButton {
    /// The window's title.
    pub open spec fn spec_title() -> Seq<char> {
        "MyButton"@
    }

    /// What the window shows: a button that reports being pressed.
    pub open spec fn layout() -> ElementView<Message> {
        plain_button("Button"@, Message::ButtonPressed)
    }

    /// The program at its start.
    pub fn new() -> Self {
        MyButton
    }

    /// The window's title.
    pub fn title(&self) -> (title: String)
        ensures
            title@ == Self::spec_title(),
    {
        "MyButton".to_owned()
    }

    /// Handles a message; returns the line to print for it.
    pub fn update(&self, message: Message) -> (line: String)
        ensures
            line@ == "Button pressed"@,
    {
        match message {
            Message::ButtonPressed => "Button pressed".to_owned(),
        }
    }

    /// Describes the window's content.
    pub fn view(&self) -> (tree: Element<Message>)
        ensures
            tree@ == Self::layout(),
    {
        Element::PushButton(
            PushButton {
                content: Text { content: "Button".to_owned(), size: None, color: None },
                padding: None,
                on_press: Some(Message::ButtonPressed),
            },
        )
    }
}

} // verus!
