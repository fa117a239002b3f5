//! What the programs read of the events that the toolkit's runtime reports.

use iced_native::event::Status;
use iced_native::keyboard::Event as KeyEvent;
use iced_native::keyboard::{KeyCode, Modifiers};
use iced_native::mouse::Event as MouseEvent;
use iced_native::Event;
use iced_native::Event::{Keyboard, Mouse, Touch, Window};
use vstd::prelude::*;

verus! {

/// `iced_native::Event`, an event of the user interface; nothing is known
/// of what one holds.
#[verifier::external_type_specification]
#[verifier::external_body]
pub struct ExEvent(iced_native::Event);

/// `iced_native::event::Status`, which says whether a widget took the event.
#[verifier::external_type_specification]
#[verifier::external_body]
pub struct ExStatus(iced_native::event::Status);

/// `iced_native::keyboard::KeyCode`, the symbolic name of a key.
#[verifier::external_type_specification]
#[verifier::external_body]
pub struct ExKeyCode(iced_native::keyboard::KeyCode);

/// `iced_native::keyboard::Modifiers`, the modifier keys held down.
#[verifier::external_type_specification]
#[verifier::external_body]
pub struct ExModifiers(iced_native::keyboard::Modifiers);

/// `iced_native::mouse::Button`, a button of the mouse.
#[verifier::external_type_specification]
#[verifier::external_body]
pub struct ExMouseButton(iced_native::mouse::Button);

/// A runtime event, one variant for each kind of event that the runtime
/// tells apart from the keyboard and the mouse, and one each for those of
/// the window and of a touch screen.
#[derive(Debug, Clone, Copy, PartialEq, Eq)]
pub enum Input {
    /// A key went down.
    KeyPressed { key_code: KeyCode, modifiers: Modifiers },
    /// A key came up.
    KeyReleased { key_code: KeyCode, modifiers: Modifiers },
    /// A character was typed.
    CharacterReceived(char),
    /// Other modifier keys are held down than before.
    ModifiersChanged(Modifiers),
    /// The cursor came into the window.
    CursorEntered,
    /// The cursor left the window.
    CursorLeft,
    /// The cursor moved.
    CursorMoved,
    /// A mouse button went down.
    MouseButtonPressed(iced_native::mouse::Button),
    /// A mouse button came up.
    MouseButtonReleased(iced_native::mouse::Button),
    /// The wheel was turned.
    WheelScrolled,
    /// Something happened to the window.
    Window,
    /// A finger touched the screen, moved on it or left it.
    Touch,
}

/// The [`Input`] that a runtime event is written as.
pub uninterp spec fn input_of(event: Event) -> Input;

/// The name under which a key is printed.
pub uninterp spec fn key_name(key: KeyCode) -> Seq<char>;

/// The name under which a mouse button is printed.
pub uninterp spec fn button_name(button: iced_native::mouse::Button) -> Seq<char>;

/// Writes an `iced_native::Event` as an [`Input`]: one arm for each variant
/// of `iced_native::keyboard::Event` and of `iced_native::mouse::Event`,
/// one for the window's events and one for those of a touch screen. Keys,
/// modifiers and buttons are carried over as they are; positions and
/// distances, which are fractions, are left behind. Nothing is decided
/// here. The result is taken as the meaning of `input_of`.
#[verifier::external_body]
pub(crate) fn classify(event: Event) -> (input: Input)
    ensures
        input == input_of(event),
{
    match event {
        Keyboard(KeyEvent::KeyPressed { key_code, modifiers }) => Input::KeyPressed { key_code, modifiers },
        Keyboard(KeyEvent::KeyReleased { key_code, modifiers }) => Input::KeyReleased { key_code, modifiers },
        Keyboard(KeyEvent::CharacterReceived(c)) => Input::CharacterReceived(c),
        Keyboard(KeyEvent::ModifiersChanged(modifiers)) => Input::ModifiersChanged(modifiers),
        Mouse(MouseEvent::CursorEntered) => Input::CursorEntered,
        Mouse(MouseEvent::CursorLeft) => Input::CursorLeft,
        Mouse(MouseEvent::CursorMoved { .. }) => Input::CursorMoved,
        Mouse(MouseEvent::ButtonPressed(button)) => Input::MouseButtonPressed(button),
        Mouse(MouseEvent::ButtonReleased(button)) => Input::MouseButtonReleased(button),
        Mouse(MouseEvent::WheelScrolled { .. }) => Input::WheelScrolled,
        Window(_) => Input::Window,
        Touch(_) => Input::Touch,
    }
}

/// Formats a key with the `Debug` impl that `iced_native::keyboard::KeyCode`
/// derives, which writes the variant's name. The result is taken as the
/// meaning of `key_name`.
#[verifier::external_body]
pub(crate) fn debug_key(key: KeyCode) -> (name: String)
    ensures
        name@ == key_name(key),
{
    format!("{key:?}")
}

/// Formats a mouse button with the `Debug` impl that
/// `iced_native::mouse::Button` derives. The result is taken as the meaning
/// of `button_name`.
#[verifier::external_body]
pub(crate) fn debug_button(button: iced_native::mouse::Button) -> (name: String)
    ensures
        name@ == button_name(button),
{
    format!("{button:?}")
}

} // verus!
