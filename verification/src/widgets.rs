//! A counter with one button to raise it and one to lower it.

use crate::decimal::{decimal, lemma_decimal_injective, to_decimal};
use crate::widget::{
    plain_button, plain_flex, Element, ElementView, Flex, PushButton, Text, TextView,
};
use vstd::prelude::*;

verus! {

/// What the user can ask of the counter.
#[derive(Debug, Clone, Copy, PartialEq, Eq)]
pub enum Message {
    IncrementButtonPressed,
    DecrementButtonPressed,
}

impl Message {
    /// By how much the message moves the count.
    pub open spec fn delta(self) -> int {
        match self {
            Message::IncrementButtonPressed => 1,
            Message::DecrementButtonPressed => -1,
        }
    }
}

/// The counter's state.
#[derive(Debug, Clone, Copy, PartialEq, Eq)]
pub struct Counter {
    pub count: i32,
}

impl Counter {
    /// The window's title.
    pub open spec fn spec_title() -> Seq<char> {
        "Counter"@
    }

    /// What a counter at `count` shows: the count in large type and, under
    /// it, the raising button beside the lowering one.
    pub open spec fn layout(count: int) -> ElementView<Message> {
        ElementView::Column(
            plain_flex(),
            seq![
                ElementView::Text(TextView { content: decimal(count), size: Some(50), color: None }),
                ElementView::Row(
                    plain_flex(),
                    seq![
                        plain_button("+"@, Message::IncrementButtonPressed),
                        plain_button("-"@, Message::DecrementButtonPressed),
                    ],
                ),
            ],
        )
    }

    /// What is shown tells the count: two counters that show the same are
    /// at the same count.
    pub proof fn lemma_layout_tells_count(a: int, b: int)
        requires
            Self::layout(a) == Self::layout(b),
        ensures
            a == b,
    {
        assert(Self::layout(a)->Column_1[0]->Text_0.content == decimal(a));
        assert(Self::layout(b)->Column_1[0]->Text_0.content == decimal(b));
        lemma_decimal_injective(a, b);
    }

    /// Pressing one button and then the other leaves the count where it
    /// was.
    pub proof fn lemma_buttons_cancel(first: Message, second: Message)
        requires
            first != second,
        ensures
            first.delta() + second.delta() == 0,
    {
    }

    /// A counter at zero.
    pub fn new() -> (counter: Self)
        ensures
            counter.count == 0,
    {
        Counter { count: 0 }
    }

    /// The window's title.
    pub fn title(&self) -> (title: String)
        ensures
            title@ == Self::spec_title(),
    {
        "Counter".to_owned()
    }

    /// Moves the count by one, up or down as the message says.
    pub fn update(&mut self, message: Message)
        requires
            i32::MIN <= old(self).count + message.delta() <= i32::MAX,
        ensures
            final(self).count == old(self).count + message.delta(),
    {
        match message {
            Message::IncrementButtonPressed => self.count += 1,
            Message::DecrementButtonPressed => self.count -= 1,
        }
    }

    /// Describes the window's content for the present count.
    pub fn view(&self) -> (tree: Element<Message>)
        ensures
            tree@ == Self::layout(self.count as int),
    {
        let count_text = Element::Text(
            Text { content: to_decimal(self.count), size: Some(50), color: None },
        );
        let increment_button = Element::PushButton(
            PushButton {
                content: Text { content: "+".to_owned(), size: None, color: None },
                padding: None,
                on_press: Some(Message::IncrementButtonPressed),
            },
        );
        let decrement_button = Element::PushButton(
            PushButton {
                content: Text { content: "-".to_owned(), size: None, color: None },
                padding: None,
                on_press: Some(Message::DecrementButtonPressed),
            },
        );
        let flex = Flex { padding: None, spacing: None, max_width: None, align_items: None };
        assert(increment_button@ == plain_button("+"@, Message::IncrementButtonPressed));
        assert(decrement_button@ == plain_button("-"@, Message::DecrementButtonPressed));
        assert(count_text@ == Self::layout(self.count as int)->Column_1[0]);

        let mut buttons: Vec<Element<Message>> = Vec::new();
        buttons.push(increment_button);
        buttons.push(decrement_button);
        let button_row = Element::Row(flex, buttons);
        assert(button_row@->Row_1 =~= seq![
            plain_button("+"@, Message::IncrementButtonPressed),
            plain_button("-"@, Message::DecrementButtonPressed),
        ]);

        let mut children: Vec<Element<Message>> = Vec::new();
        children.push(count_text);
        children.push(button_row);
        let tree = Element::Column(flex, children);
        assert(tree@->Column_1 =~= Self::layout(self.count as int)->Column_1);
        tree
    }
}

} // verus!
