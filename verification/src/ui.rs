use vstd::prelude::*;
use crate::message::Message;
use crate::time::Timestamp;

verus! {

/// A question with a list of options, shown over the chat when it has the focus.
pub struct Choice {
    focus: bool,
    question: String,
    options: Vec<String>,
}

impl Choice {
    /// Whether the choice box has the focus.
    pub closed spec fn has_focus(self) -> bool {
        self.focus
    }

    /// The question the box asks.
    pub closed spec fn asks(self) -> Seq<char> {
        self.question@
    }

    /// The options the box offers, in order.
    pub closed spec fn offers(self) -> Seq<String> {
        self.options@
    }

    /// A choice box asking `question`, without the focus.
    pub fn new(question: String, options: Vec<String>) -> (choice: Self)
        ensures
            !choice.has_focus(),
            choice.asks() == question@,
            choice.offers() == options@,
    {
        Choice { focus: false, question, options }
    }

    /// Whether the choice box has the focus.
    pub fn focused(&self) -> (focus: bool)
        ensures
            focus == self.has_focus(),
    {
        self.focus
    }

    /// Gives the focus to the choice box if it lacked it, and takes it away
    /// otherwise.
    pub fn toggle_focus(&mut self)
        ensures
            final(self).has_focus() == !old(self).has_focus(),
            final(self).asks() == old(self).asks(),
            final(self).offers() == old(self).offers(),
    {
        self.focus = !self.focus;
    }

    /// The question the box asks.
    pub fn question(&self) -> (q: &String)
        ensures
            q@ == self.asks(),
    {
        &self.question
    }

    /// The options the box offers.
    pub fn options(&self) -> (o: &Vec<String>)
        ensures
            o@ == self.offers(),
    {
        &self.options
    }
}

/// The colour of the line under the message list.
#[derive(Clone, Copy, Debug, PartialEq, Eq, Structural)]
pub enum BorderColor {
    /// The connection is up.
    White,
    /// The connection is still being set up.
    LightYellow,
}

/// One line of the message list: when, who (in their colour), and what.
#[derive(Debug)]
pub struct MessageLine {
    pub timestamp: Timestamp,
    pub sender: String,
    pub color: [u8; 3],
    pub content: String,
}

/// The message list as it is drawn: its lines, how far it is scrolled, and
/// the colour of the line under it.
#[derive(Debug)]
pub struct MessageView {
    pub lines: Vec<MessageLine>,
    pub scroll: u16,
    pub border: BorderColor,
}

/// Whether a line shows the given message.
pub open spec fn shows(line: MessageLine, msg: Message) -> bool {
    &&& line.timestamp == msg.timestamp
    &&& line.sender@ == msg.sender@
    &&& line.color == msg.color
    &&& line.content@ == msg.content@
}

/// Lays out the message list: one line per message, in order, scrolled by
/// `scroll`, underlined in white when the connection is up and in light
/// yellow otherwise.
pub fn collect_messages(list: &Vec<Message>, scroll: u16, state: bool) -> (view: MessageView)
    ensures
        view.lines@.len() == list@.len(),
        forall|i: int| 0 <= i < list@.len() ==> shows(#[trigger] view.lines@[i], list@[i]),
        view.scroll == scroll,
        view.border == (if state {
            BorderColor::White
        } else {
            BorderColor::LightYellow
        }),
{
    let mut lines: Vec<MessageLine> = Vec::new();
    let mut i: usize = 0;
    while i < list.len()
        invariant
            i <= list@.len(),
            lines@.len() == i,
            forall|j: int| 0 <= j < i ==> shows(#[trigger] lines@[j], list@[j]),
        decreases list@.len() - i,
    {
        let item = &list[i];
        lines.push(
            MessageLine {
                timestamp: item.timestamp,
                sender: item.sender.clone(),
                color: item.color,
                content: item.content.clone(),
            },
        );
        i = i + 1;
    }
    let border = if state {
        BorderColor::White
    } else {
        BorderColor::LightYellow
    };
    MessageView { lines, scroll, border }
}

} // verus!
