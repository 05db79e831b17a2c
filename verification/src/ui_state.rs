//! Messages shown to the user and the state of the tab bar.

use vstd::prelude::*;

verus! {

/// Severity of a message shown in a popup.
pub enum MessageType {
    Error,
    Warning,
    Info,
}

impl MessageType {
    /// The label under which a message of this severity is displayed.
    pub fn name(&self) -> (r: &'static str)
        ensures
            r@ == (match *self {
                MessageType::Error => "Error"@,
                MessageType::Warning => "Warning"@,
                MessageType::Info => "Info"@,
            }),
    {
        match self {
            MessageType::Error => "Error",
            MessageType::Warning => "Warning",
            MessageType::Info => "Info",
        }
    }
}

/// A message for the user, with its severity.
pub struct Message {
    msg_type: MessageType,
    msg: String,
}

/// What a [`Message`] holds: its severity and the text as a character sequence.
pub struct MessageView {
    pub msg_type: MessageType,
    pub msg: Seq<char>,
}

impl View for Message {
    type V = MessageView;

    closed spec fn view(&self) -> MessageView {
        MessageView { msg_type: self.msg_type, msg: self.msg@ }
    }
}

impl Message {
    pub fn new(msg_type: MessageType, msg: String) -> (r: Self)
        ensures
            r@.msg_type == msg_type,
            r@.msg == msg@,
    {
        Self { msg_type, msg }
    }

    pub fn get_type(&self) -> (r: &MessageType)
        ensures
            *r == self@.msg_type,
    {
        &self.msg_type
    }

    pub fn get_message(&self) -> (r: &String)
        ensures
            r@ == self@.msg,
    {
        &self.msg
    }
}

/// The tab bar: a fixed list of titles and the index of the active tab.
pub struct TabsState<'a> {
    pub titles: Vec<&'a str>,
    pub index: usize,
}

impl<'a> TabsState<'a> {
    pub fn new(titles: Vec<&'a str>) -> (r: Self)
        ensures
            r.titles == titles,
            r.index == 0,
    {
        Self { titles, index: 0 }
    }

    /// Move to the tab to the right, wrapping around past the last title.
    pub fn next(&mut self)
        requires
            old(self).titles.len() > 0,
            old(self).index < usize::MAX,
        ensures
            final(self).titles == old(self).titles,
            final(self).index == (old(self).index + 1) % (old(self).titles@.len() as int),
    {
        self.index = (self.index + 1) % self.titles.len();
    }

    /// Move to the tab to the left, wrapping around past the first title.
    pub fn previous(&mut self)
        requires
            old(self).titles.len() > 0,
        ensures
            final(self).titles == old(self).titles,
            final(self).index == (if old(self).index > 0 {
                old(self).index - 1
            } else {
                old(self).titles@.len() - 1
            }),
    {
        if self.index > 0 {
            self.index -= 1;
        } else {
            self.index = self.titles.len() - 1;
        }
    }
}

} // verus!
