use gui_samples::application::{sleep_for_a_second, Message as ApplicationMessage, MyApplication};
use gui_samples::command::{Command, Nap, Step};
use gui_samples::sandbox::{Message as SandboxMessage, MyButton};
use gui_samples::widget::{Element, PushButton, Text};

#[test]
fn my_button_title() {
    assert_eq!(MyButton::new().title(), "MyButton");
}

#[test]
fn my_button_prints_when_pressed() {
    assert_eq!(MyButton::new().update(SandboxMessage::ButtonPressed), "Button pressed");
}

#[test]
fn my_button_view_is_one_button() {
    let expected = Element::PushButton(PushButton {
        content: Text { content: "Button".to_string(), size: None, color: None },
        padding: None,
        on_press: Some(SandboxMessage::ButtonPressed),
    });
    assert_eq!(MyButton::new().view(), expected);
}

#[test]
fn my_application_starts_idle() {
    let (application, first) = MyApplication::new();
    assert_eq!(application, MyApplication);
    assert_eq!(first, Command::Idle);
}

#[test]
fn my_application_title() {
    assert_eq!(MyApplication.title(), "MyApplication");
}

#[test]
fn the_nap_lasts_one_second() {
    assert_eq!(sleep_for_a_second(), Nap { secs: 1, farewell: "Hello, from 1 sec sleep!" });
}

#[test]
fn a_click_starts_the_nap() {
    let step = MyApplication.update(ApplicationMessage::ButtonClicked);
    let expected = Step {
        line: Some("Clicked!".to_string()),
        command: Command::Perform(
            Nap { secs: 1, farewell: "Hello, from 1 sec sleep!" },
            ApplicationMessage::AwakeFromSleep,
        ),
    };
    assert_eq!(step, expected);
}

#[test]
fn waking_up_asks_for_nothing() {
    let step = MyApplication.update(ApplicationMessage::AwakeFromSleep);
    assert_eq!(step, Step { line: None, command: Command::Idle });
}

#[test]
fn my_application_view_is_one_button() {
    let expected = Element::PushButton(PushButton {
        content: Text { content: "click".to_string(), size: None, color: None },
        padding: None,
        on_press: Some(ApplicationMessage::ButtonClicked),
    });
    assert_eq!(MyApplication.view(), expected);
}
