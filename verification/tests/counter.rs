use gui_samples::decimal::to_decimal;
use gui_samples::widget::{Align, Color, Element, Flex, Frame, Length, PushButton, Text};
use gui_samples::widgets::{Counter, Message};
use gui_samples::widgets_placement;

fn plain_flex() -> Flex {
    Flex { padding: None, spacing: None, max_width: None, align_items: None }
}

fn plain_button(label: &str, message: Message) -> Element<Message> {
    Element::PushButton(PushButton {
        content: Text { content: label.to_string(), size: None, color: None },
        padding: None,
        on_press: Some(message),
    })
}

fn padded_button(label: &str, message: Message) -> Element<Message> {
    Element::PushButton(PushButton {
        content: Text { content: label.to_string(), size: None, color: None },
        padding: Some(10),
        on_press: Some(message),
    })
}

#[test]
fn counter_starts_at_zero() {
    assert_eq!(Counter::new(), Counter { count: 0 });
}

#[test]
fn counter_title() {
    assert_eq!(Counter::new().title(), "Counter");
}

#[test]
fn increment_adds_one() {
    let mut counter = Counter::new();
    counter.update(Message::IncrementButtonPressed);
    assert_eq!(counter.count, 1);
    counter.update(Message::IncrementButtonPressed);
    assert_eq!(counter.count, 2);
}

#[test]
fn decrement_takes_one() {
    let mut counter = Counter::new();
    counter.update(Message::DecrementButtonPressed);
    assert_eq!(counter.count, -1);
}

#[test]
fn increment_then_decrement_restores_the_count() {
    let mut counter = Counter { count: 41 };
    counter.update(Message::IncrementButtonPressed);
    counter.update(Message::DecrementButtonPressed);
    assert_eq!(counter.count, 41);
}

#[test]
fn update_reaches_both_ends_of_the_range() {
    let mut top = Counter { count: i32::MAX - 1 };
    top.update(Message::IncrementButtonPressed);
    assert_eq!(top.count, i32::MAX);
    let mut bottom = Counter { count: i32::MIN + 1 };
    bottom.update(Message::DecrementButtonPressed);
    assert_eq!(bottom.count, i32::MIN);
}

#[test]
fn decimal_of_small_numbers() {
    assert_eq!(to_decimal(0), "0");
    assert_eq!(to_decimal(7), "7");
    assert_eq!(to_decimal(10), "10");
    assert_eq!(to_decimal(-1), "-1");
    assert_eq!(to_decimal(-120), "-120");
    assert_eq!(to_decimal(1005), "1005");
}

#[test]
fn decimal_of_the_ends_of_the_range() {
    assert_eq!(to_decimal(i32::MAX), "2147483647");
    assert_eq!(to_decimal(i32::MIN), "-2147483648");
}

#[test]
fn decimal_agrees_with_the_standard_rendering() {
    let samples = vec![0, 1, -1, 9, 10, 11, 99, 100, 101, -99, -100, 65535, -65536, i32::MAX, i32::MIN];
    for n in samples {
        assert_eq!(to_decimal(n), n.to_string());
    }
}

#[test]
fn counter_view_shows_count_over_buttons() {
    let counter = Counter { count: 3 };
    let expected = Element::Column(
        plain_flex(),
        vec![
            Element::Text(Text { content: "3".to_string(), size: Some(50), color: None }),
            Element::Row(
                plain_flex(),
                vec![
                    plain_button("+", Message::IncrementButtonPressed),
                    plain_button("-", Message::DecrementButtonPressed),
                ],
            ),
        ],
    );
    assert_eq!(counter.view(), expected);
}

#[test]
fn counter_view_follows_the_count() {
    let mut counter = Counter::new();
    counter.update(Message::DecrementButtonPressed);
    counter.update(Message::DecrementButtonPressed);
    match counter.view() {
        Element::Column(_, children) => {
            assert_eq!(
                children[0],
                Element::Text(Text { content: "-2".to_string(), size: Some(50), color: None })
            );
        }
        other => panic!("not a column: {:?}", other),
    }
}

#[test]
fn placed_view_centres_the_counter() {
    let counter = Counter { count: 12 };
    let flex = Flex {
        padding: Some(20),
        spacing: Some(20),
        max_width: Some(500),
        align_items: Some(Align::Center),
    };
    let expected = Element::Container(
        Frame {
            width: Some(Length::Fill),
            height: Some(Length::Fill),
            center_x: true,
            center_y: true,
        },
        Box::new(Element::Column(
            flex,
            vec![
                Element::Text(Text {
                    content: "12".to_string(),
                    size: Some(50),
                    color: Some(Color { r: 0, g: 0, b: 255 }),
                }),
                Element::Row(
                    flex,
                    vec![
                        padded_button("+", Message::IncrementButtonPressed),
                        padded_button("-", Message::DecrementButtonPressed),
                    ],
                ),
            ],
        )),
    );
    assert_eq!(widgets_placement::view(&counter), expected);
}

#[test]
fn placed_counter_is_the_same_counter() {
    let mut counter = widgets_placement::Counter::new();
    counter.update(widgets_placement::Message::IncrementButtonPressed);
    assert_eq!(counter.count, 1);
    assert_eq!(counter.title(), "Counter");
}

#[test]
fn different_counts_show_differently() {
    let samples = vec![i32::MIN, -10, -1, 0, 1, 10, 11, 101, 110, i32::MAX];
    for a in &samples {
        for b in &samples {
            let same_view = Counter { count: *a }.view() == Counter { count: *b }.view();
            assert_eq!(same_view, a == b);
        }
    }
}
