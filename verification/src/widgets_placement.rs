//! The counter again, laid out with care: padded buttons, a centred row and
//! column, and the whole centred in the window.

use crate::decimal::{decimal, to_decimal};
use crate::widget::{
    Align, Color, Element, ElementView, Flex, Frame, Length, PushButton, PushButtonView, Text,
    TextView,
};
pub use crate::widgets::{Counter, Message};
use vstd::prelude::*;

verus! {

/// The colour of the count.
pub open spec fn blue() -> Color {
    Color { r: 0, g: 0, b: 255 }
}

/// The settings shared by the row of buttons and the column round it.
pub open spec fn centred_flex() -> Flex {
    Flex {
        padding: Some(20u16),
        spacing: Some(20u16),
        max_width: Some(500u32),
        align_items: Some(Align::Center),
    }
}

/// A button padded by ten that shows `label` and sends `message`.
pub open spec fn padded_button(label: Seq<char>, message: Message) -> ElementView<Message> {
    ElementView::PushButton(
        PushButtonView {
            content: TextView { content: label, size: None, color: None },
            padding: Some(10u16),
            on_press: Some(message),
        },
    )
}

/// The count in large blue type over the row of the two buttons.
pub open spec fn content(count: int) -> ElementView<Message> {
    ElementView::Column(
        centred_flex(),
        seq![
            ElementView::Text(
                TextView { content: decimal(count), size: Some(50u16), color: Some(blue()) },
            ),
            ElementView::Row(
                centred_flex(),
                seq![
                    padded_button("+"@, Message::IncrementButtonPressed),
                    padded_button("-"@, Message::DecrementButtonPressed),
                ],
            ),
        ],
    )
}

/// What a counter at `count` shows: its content, centred both ways in a
/// container that fills the window.
pub open spec fn layout(count: int) -> ElementView<Message> {
    ElementView::Container(
        Frame {
            width: Some(Length::Fill),
            height: Some(Length::Fill),
            center_x: true,
            center_y: true,
        },
        Box::new(content(count)),
    )
}

/// Describes the window's content for the counter's present count.
pub fn view(counter: &Counter) -> (tree: Element<Message>)
    ensures
        tree@ == layout(counter.count as int),
{
    let count_text = Element::Text(
        Text {
            content: to_decimal(counter.count),
            size: Some(50),
            color: Some(Color { r: 0, g: 0, b: 255 }),
        },
    );
    let increment_button = Element::PushButton(
        PushButton {
            content: Text { content: "+".to_owned(), size: None, color: None },
            padding: Some(10),
            on_press: Some(Message::IncrementButtonPressed),
        },
    );
    let decrement_button = Element::PushButton(
        PushButton {
            content: Text { content: "-".to_owned(), size: None, color: None },
            padding: Some(10),
            on_press: Some(Message::DecrementButtonPressed),
        },
    );
    let flex = Flex {
        padding: Some(20),
        spacing: Some(20),
        max_width: Some(500),
        align_items: Some(Align::Center),
    };
    assert(increment_button@ == padded_button("+"@, Message::IncrementButtonPressed));
    assert(decrement_button@ == padded_button("-"@, Message::DecrementButtonPressed));
    assert(count_text@ == content(counter.count as int)->Column_1[0]);

    let mut buttons: Vec<Element<Message>> = Vec::new();
    buttons.push(increment_button);
    buttons.push(decrement_button);
    let button_row = Element::Row(flex, buttons);
    assert(button_row@->Row_1 =~= seq![
        padded_button("+"@, Message::IncrementButtonPressed),
        padded_button("-"@, Message::DecrementButtonPressed),
    ]);

    let mut children: Vec<Element<Message>> = Vec::new();
    children.push(count_text);
    children.push(button_row);
    let column = Element::Column(flex, children);
    assert(column@->Column_1 =~= content(counter.count as int)->Column_1);
    assert(column@ == content(counter.count as int));

    Element::Container(
        Frame {
            width: Some(Length::Fill),
            height: Some(Length::Fill),
            center_x: true,
            center_y: true,
        },
        Box::new(column),
    )
}

} // verus!
