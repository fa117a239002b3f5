//! A plain description of what a program wants on screen: a tree of widgets
//! and the settings it gave each. A setting that is `None` was left alone.

use vstd::prelude::*;

verus! {

/// An opaque colour, eight bits a channel.
#[derive(Debug, Clone, Copy, PartialEq, Eq)]
pub struct Color {
    pub r: u8,
    pub g: u8,
    pub b: u8,
}

/// Where the children of a row or a column sit across its axis.
#[derive(Debug, Clone, Copy, PartialEq, Eq)]
pub enum Align {
    Start,
    Center,
    End,
}

/// How much room a widget asks for along one axis.
#[derive(Debug, Clone, Copy, PartialEq, Eq)]
pub enum Length {
    Fill,
    Shrink,
}

/// A run of text.
#[derive(Debug, PartialEq, Eq)]
pub struct Text {
    pub content: String,
    pub size: Option<u16>,
    pub color: Option<Color>,
}

/// The model of a [`Text`].
pub ghost struct TextView {
    pub content: Seq<char>,
    pub size: Option<u16>,
    pub color: Option<Color>,
}

impl View for Text {
    type V = TextView;

    open spec fn view(&self) -> TextView {
        TextView { content: self.content@, size: self.size, color: self.color }
    }
}

/// A button with a caption; pressing it sends `on_press`.
#[derive(Debug, PartialEq, Eq)]
pub struct PushButton<M> {
    pub content: Text,
    pub padding: Option<u16>,
    pub on_press: Option<M>,
}

/// The model of a [`PushButton`].
pub ghost struct PushButtonView<M> {
    pub content: TextView,
    pub padding: Option<u16>,
    pub on_press: Option<M>,
}

impl<M> View for PushButton<M> {
    type V = PushButtonView<M>;

    open spec fn view(&self) -> PushButtonView<M> {
        PushButtonView { content: self.content@, padding: self.padding, on_press: self.on_press }
    }
}

/// The settings of a row or a column.
#[derive(Debug, Clone, Copy, PartialEq, Eq)]
pub struct Flex {
    pub padding: Option<u16>,
    pub spacing: Option<u16>,
    pub max_width: Option<u32>,
    pub align_items: Option<Align>,
}

/// The settings of a container round a single widget.
#[derive(Debug, Clone, Copy, PartialEq, Eq)]
pub struct Frame {
    pub width: Option<Length>,
    pub height: Option<Length>,
    pub center_x: bool,
    pub center_y: bool,
}

/// A widget and, below it, the widgets it holds.
#[derive(Debug, PartialEq, Eq)]
pub enum Element<M> {
    Text(Text),
    PushButton(PushButton<M>),
    Row(Flex, Vec<Element<M>>),
    Column(Flex, Vec<Element<M>>),
    Container(Frame, Box<Element<M>>),
}

/// The model of an [`Element`].
pub ghost enum ElementView<M> {
    Text(TextView),
    PushButton(PushButtonView<M>),
    Row(Flex, Seq<ElementView<M>>),
    Column(Flex, Seq<ElementView<M>>),
    Container(Frame, Box<ElementView<M>>),
}

impl<M> View for Element<M> {
    type V = ElementView<M>;

    open spec fn view(&self) -> ElementView<M>
        decreases self,
    {
        match self {
            Element::Text(text) => ElementView::Text(text@),
            Element::PushButton(button) => ElementView::PushButton(button@),
            Element::Row(flex, children) => ElementView::Row(
                *flex,
                Seq::new(
                    children@.len(),
                    |i: int|
                        if 0 <= i < children@.len() {
                            children@[i]@
                        } else {
                            arbitrary()
                        },
                ),
            ),
            Element::Column(flex, children) => ElementView::Column(
                *flex,
                Seq::new(
                    children@.len(),
                    |i: int|
                        if 0 <= i < children@.len() {
                            children@[i]@
                        } else {
                            arbitrary()
                        },
                ),
            ),
            Element::Container(frame, content) => ElementView::Container(
                *frame,
                Box::new((**content)@),
            ),
        }
    }
}

/// A run of text with nothing set but its content.
pub open spec fn plain_text<M>(content: Seq<char>) -> ElementView<M> {
    ElementView::Text(TextView { content, size: None, color: None })
}

/// A button with nothing set but its caption and the message it sends.
pub open spec fn plain_button<M>(label: Seq<char>, message: M) -> ElementView<M> {
    ElementView::PushButton(
        PushButtonView {
            content: TextView { content: label, size: None, color: None },
            padding: None,
            on_press: Some(message),
        },
    )
}

/// Row and column settings with nothing set.
pub open spec fn plain_flex() -> Flex {
    Flex { padding: None, spacing: None, max_width: None, align_items: None }
}

} // verus!
