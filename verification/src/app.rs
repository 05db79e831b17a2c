//! The interactive state of the tracker and how key presses change it.
//!
//! Everything the satellite itself involves (loading an element set,
//! propagating, reading the clock) happens outside the library; these
//! methods decide what to do and hand the caller the value to act on.

use vstd::prelude::*;
use crate::selection::{selection, wrap_next, wrap_previous, StatefulList};
use crate::ui_state::{Message, MessageType, TabsState};

verus! {

/// A key press as the decision logic sees it: the typed character or an
/// editing key, with every other key folded into `Other`.
pub enum Key {
    Char(char),
    Enter,
    Backspace,
    Other,
}

/// `log_new` is `log_old` with one message of severity `t` and text `text`
/// appended.
pub open spec fn pushed(
    log_old: Seq<Message>,
    log_new: Seq<Message>,
    t: MessageType,
    text: Seq<char>,
) -> bool {
    &&& log_new.len() == log_old.len() + 1
    &&& log_new.drop_last() == log_old
    &&& log_new.last()@.msg_type == t
    &&& log_new.last()@.msg == text
}

/// The state of the tracker's console: which satellite file and tab are
/// selected, whether the user is typing coordinates, and the message log.
pub struct App<'a> {
    pub title: &'a str,
    pub tle_list: StatefulList<String>,
    pub tabs: TabsState<'a>,
    pub should_quit: bool,
    pub input_mode: bool,
    pub buffer: Vec<char>,
    pub messages: Vec<Message>,
}

impl<'a> App<'a> {
    /// Selections stay inside their lists; an empty TLE list still carries
    /// the initial selection of its first (missing) entry.
    pub open spec fn wf(&self) -> bool {
        &&& self.tabs.titles.len() > 0
        &&& self.tabs.index < self.tabs.titles.len()
        &&& (selection(self.tle_list.state) matches Some(i) ==> i == 0 || i
            < self.tle_list.items.len())
    }

    /// A fresh console over the given element-set files: first file and
    /// first tab selected, nothing typed, no messages.
    pub fn new(title: &'a str, tle_files: Vec<String>) -> (r: Self)
        ensures
            r.wf(),
            r.title == title,
            r.tle_list.items == tle_files,
            selection(r.tle_list.state) == Some(0usize),
            r.tabs.index == 0,
            r.tabs.titles@.len() == 3,
            r.tabs.titles@[0]@ == "Map Projection"@,
            r.tabs.titles@[1]@ == "Azimuthal Projection"@,
            r.tabs.titles@[2]@ == "About"@,
            !r.should_quit,
            !r.input_mode,
            r.buffer@ == Seq::<char>::empty(),
            r.messages@ == Seq::<Message>::empty(),
    {
        Self {
            title,
            tle_list: StatefulList::new(tle_files),
            tabs: TabsState::new(vec!["Map Projection", "Azimuthal Projection", "About"]),
            should_quit: false,
            input_mode: false,
            buffer: Vec::new(),
            messages: Vec::new(),
        }
    }

    /// Append a message to the log.
    pub fn push_message(&mut self, msg: Message)
        ensures
            final(self).messages@ == old(self).messages@.push(msg),
            final(self).title == old(self).title,
            final(self).tle_list == old(self).tle_list,
            final(self).tabs == old(self).tabs,
            final(self).should_quit == old(self).should_quit,
            final(self).input_mode == old(self).input_mode,
            final(self).buffer == old(self).buffer,
    {
        self.messages.push(msg);
    }

    /// Drop the most recent message, if there is one.
    fn pop_message(&mut self)
        ensures
            final(self).messages@ == (if old(self).messages@.len() > 0 {
                old(self).messages@.drop_last()
            } else {
                old(self).messages@
            }),
            final(self).title == old(self).title,
            final(self).tle_list == old(self).tle_list,
            final(self).tabs == old(self).tabs,
            final(self).should_quit == old(self).should_quit,
            final(self).input_mode == old(self).input_mode,
            final(self).buffer == old(self).buffer,
    {
        if !self.messages.is_empty() {
            self.messages.pop();
        }
    }

    /// Pick the first element-set file as the one to load, or report that
    /// none was found. The caller loads the returned file.
    pub fn initialize(&mut self) -> (r: Option<String>)
        ensures
            old(self).tle_list.items.len() > 0 ==> (r matches Some(s)
                && s == old(self).tle_list.items@[0]
                && final(self).messages == old(self).messages),
            old(self).tle_list.items.len() == 0 ==> (r is None && pushed(
                old(self).messages@,
                final(self).messages@,
                MessageType::Error,
                "No TLE files found"@,
            )),
            final(self).title == old(self).title,
            final(self).tle_list == old(self).tle_list,
            final(self).tabs == old(self).tabs,
            final(self).should_quit == old(self).should_quit,
            final(self).input_mode == old(self).input_mode,
            final(self).buffer == old(self).buffer,
    {
        if self.tle_list.items.len() > 0 {
            Some(self.tle_list.items[0].clone())
        } else {
            self.push_message(
                Message::new(MessageType::Error, String::from_str("No TLE files found")),
            );
            proof {
                assert(self.messages@.drop_last() =~= old(self).messages@);
            }
            None
        }
    }

    pub fn get_messages(&self) -> (r: &Vec<Message>)
        ensures
            *r == self.messages,
    {
        &self.messages
    }

    /// Step the TLE selection up and return the newly selected file, for the
    /// caller to load.
    pub fn on_up(&mut self) -> (r: String)
        requires
            old(self).wf(),
            old(self).tle_list.items.len() > 0,
        ensures
            final(self).wf(),
            r == old(self).tle_list.items@[wrap_previous(
                selection(old(self).tle_list.state),
                old(self).tle_list.items.len(),
            ) as int],
            selection(final(self).tle_list.state) == Some(
                wrap_previous(selection(old(self).tle_list.state), old(self).tle_list.items.len()),
            ),
            final(self).tle_list.items == old(self).tle_list.items,
            final(self).title == old(self).title,
            final(self).tabs == old(self).tabs,
            final(self).should_quit == old(self).should_quit,
            final(self).input_mode == old(self).input_mode,
            final(self).buffer == old(self).buffer,
            final(self).messages == old(self).messages,
    {
        self.tle_list.previous().clone()
    }

    /// Step the TLE selection down and return the newly selected file, for
    /// the caller to load.
    pub fn on_down(&mut self) -> (r: String)
        requires
            old(self).wf(),
            old(self).tle_list.items.len() > 0,
        ensures
            final(self).wf(),
            r == old(self).tle_list.items@[wrap_next(
                selection(old(self).tle_list.state),
                old(self).tle_list.items.len(),
            ) as int],
            selection(final(self).tle_list.state) == Some(
                wrap_next(selection(old(self).tle_list.state), old(self).tle_list.items.len()),
            ),
            final(self).tle_list.items == old(self).tle_list.items,
            final(self).title == old(self).title,
            final(self).tabs == old(self).tabs,
            final(self).should_quit == old(self).should_quit,
            final(self).input_mode == old(self).input_mode,
            final(self).buffer == old(self).buffer,
            final(self).messages == old(self).messages,
    {
        self.tle_list.next().clone()
    }

    /// Switch to the tab to the right.
    pub fn on_right(&mut self)
        requires
            old(self).wf(),
        ensures
            final(self).wf(),
            final(self).tabs.index == (old(self).tabs.index + 1) % (
            old(self).tabs.titles@.len() as int),
            final(self).tabs.titles == old(self).tabs.titles,
            final(self).title == old(self).title,
            final(self).tle_list == old(self).tle_list,
            final(self).should_quit == old(self).should_quit,
            final(self).input_mode == old(self).input_mode,
            final(self).buffer == old(self).buffer,
            final(self).messages == old(self).messages,
    {
        self.tabs.next();
    }

    /// Switch to the tab to the left.
    pub fn on_left(&mut self)
        requires
            old(self).wf(),
        ensures
            final(self).wf(),
            final(self).tabs.index == (if old(self).tabs.index > 0 {
                old(self).tabs.index - 1
            } else {
                old(self).tabs.titles@.len() - 1
            }),
            final(self).tabs.titles == old(self).tabs.titles,
            final(self).title == old(self).title,
            final(self).tle_list == old(self).tle_list,
            final(self).should_quit == old(self).should_quit,
            final(self).input_mode == old(self).input_mode,
            final(self).buffer == old(self).buffer,
            final(self).messages == old(self).messages,
    {
        self.tabs.previous();
    }

    /// Handle a key press outside input mode: `q` quits, `c` starts
    /// coordinate input, Enter clears the latest popup message.
    pub fn on_key_normal(&mut self, c: Key)
        ensures
            final(self).should_quit == (old(self).should_quit || c == Key::Char('q')),
            final(self).input_mode == (old(self).input_mode || c == Key::Char('c')),
            final(self).messages@ == (if c == Key::Enter && old(self).messages@.len() > 0 {
                old(self).messages@.drop_last()
            } else {
                old(self).messages@
            }),
            final(self).title == old(self).title,
            final(self).tle_list == old(self).tle_list,
            final(self).tabs == old(self).tabs,
            final(self).buffer == old(self).buffer,
    {
        match c {
            Key::Char(ch) => {
                if ch == 'q' {
                    self.should_quit = true;
                } else if ch == 'c' {
                    self.input_mode = true;
                }
            },
            Key::Enter => self.pop_message(),
            _ => {},
        }
    }

    /// Handle a key press in input mode: characters and Backspace edit the
    /// buffer; Enter leaves input mode and hands the caller the typed text
    /// to interpret as coordinates.
    pub fn on_key_input(&mut self, c: Key) -> (r: Option<Vec<char>>)
        ensures
            c == Key::Enter ==> (r matches Some(b) && b@ == old(self).buffer@
                && final(self).buffer@ == Seq::<char>::empty() && !final(self).input_mode),
            c != Key::Enter ==> (r is None && final(self).input_mode == old(self).input_mode),
            c == Key::Backspace ==> final(self).buffer@ == (if old(self).buffer@.len() > 0 {
                old(self).buffer@.drop_last()
            } else {
                old(self).buffer@
            }),
            c matches Key::Char(ch) ==> final(self).buffer@ == old(self).buffer@.push(ch),
            c == Key::Other ==> final(self).buffer == old(self).buffer,
            final(self).title == old(self).title,
            final(self).tle_list == old(self).tle_list,
            final(self).tabs == old(self).tabs,
            final(self).should_quit == old(self).should_quit,
            final(self).messages == old(self).messages,
    {
        match c {
            Key::Enter => {
                let mut b: Vec<char> = Vec::new();
                core::mem::swap(&mut b, &mut self.buffer);
                self.visual_mode();
                Some(b)
            },
            Key::Backspace => {
                self.buffer.pop();
                None
            },
            Key::Char(ch) => {
                self.buffer.push(ch);
                None
            },
            Key::Other => None,
        }
    }

    /// Leave input mode and discard whatever was typed.
    fn visual_mode(&mut self)
        ensures
            !final(self).input_mode,
            final(self).buffer@ == Seq::<char>::empty(),
            final(self).title == old(self).title,
            final(self).tle_list == old(self).tle_list,
            final(self).tabs == old(self).tabs,
            final(self).should_quit == old(self).should_quit,
            final(self).messages == old(self).messages,
    {
        self.input_mode = false;
        self.buffer.clear();
    }
}

} // verus!
