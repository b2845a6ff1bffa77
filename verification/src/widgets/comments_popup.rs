use vstd::prelude::*;
use vstd::utf8::encode_utf8;
use crate::event::key::Key;
use crate::widgets::EventState;
use crate::widgets::InputMode;

verus! {

/// The plain comment entry: a line of input, the messages recorded so far,
/// and whether the operator asked to push them.
#[derive(Debug)]
pub struct CommentsPopup {
    /// Current value of the input box
    input: String,
    /// Current input mode
    input_mode: InputMode,
    /// History of recorded messages
    messages: Vec<String>,
    push_comment: bool,
}

/// The state of a `CommentsPopup` as its key handling sees it.
pub struct CommentsView {
    pub input: Seq<char>,
    pub input_mode: InputMode,
    pub messages: Seq<Seq<char>>,
    pub push_comment: bool,
}

impl CommentsView {
    /// An empty popup, not editing.
    pub open spec fn initial() -> Self {
        CommentsView {
            input: Seq::empty(),
            input_mode: InputMode::Normal,
            messages: Seq::empty(),
            push_comment: false,
        }
    }

    /// What one key does to the popup, and whether the popup used it.
    ///
    /// While browsing, `e` starts the editing and `P` asks for the push;
    /// every other key is left to the caller. While editing, a character goes
    /// into the input, backspace takes the last one away, escape ends the
    /// editing and keeps the input, and enter records the input as a message
    /// and empties it.
    pub open spec fn event(self, key: Key) -> (Self, EventState) {
        match self.input_mode {
            InputMode::Normal => match key {
                Key::Char(c) if c == 'e' => (
                    CommentsView { input_mode: InputMode::Editing, ..self },
                    EventState::Consumed,
                ),
                Key::Char(c) if c == 'P' => (
                    CommentsView { push_comment: true, ..self },
                    EventState::Consumed,
                ),
                _ => (self, EventState::NotConsumed),
            },
            InputMode::Editing => match key {
                Key::Char(c) => (
                    CommentsView { input: self.input.push(c), ..self },
                    EventState::Consumed,
                ),
                Key::Backspace => (
                    CommentsView {
                        input: if self.input.len() > 0 {
                            self.input.drop_last()
                        } else {
                            self.input
                        },
                        ..self
                    },
                    EventState::Consumed,
                ),
                Key::Esc => (
                    CommentsView { input_mode: InputMode::Normal, ..self },
                    EventState::Consumed,
                ),
                Key::Enter => (
                    CommentsView {
                        messages: self.messages.push(self.input),
                        input: Seq::empty(),
                        ..self
                    },
                    EventState::Consumed,
                ),
                _ => (self, EventState::NotConsumed),
            },
        }
    }
}

/// The messages of a popup, each as its characters.
pub open spec fn message_texts(messages: Seq<String>) -> Seq<Seq<char>> {
    messages.map_values(|m: String| m@)
}

/// The smaller of `n` and `u16::MAX`.
pub open spec fn saturated(n: int) -> u16 {
    if n > u16::MAX {
        u16::MAX
    } else {
        n as u16
    }
}

/// The length of a text in bytes, as `str::len` counts it.
pub open spec fn byte_len(text: Seq<char>) -> usize {
    encode_utf8(text).len() as usize
}

/// Where the terminal cursor belongs for a popup whose input box has its
/// top left corner at `(x, y)`. The column counts the bytes of the input.
pub open spec fn cursor_position(v: CommentsView, x: u16, y: u16) -> Option<(u16, u16)> {
    match v.input_mode {
        InputMode::Normal => None,
        InputMode::Editing => Some((saturated(x + byte_len(v.input) + 1), saturated(y + 1))),
    }
}

impl View for CommentsPopup {
    type V = CommentsView;

    closed spec fn view(&self) -> CommentsView {
        CommentsView {
            input: self.input@,
            input_mode: self.input_mode,
            messages: message_texts(self.messages@),
            push_comment: self.push_comment,
        }
    }
}

impl CommentsPopup {
    pub fn new() -> (r: Self)
        ensures
            r@ == CommentsView::initial(),
    {
        let r = CommentsPopup {
            input: String::new(),
            input_mode: InputMode::Normal,
            messages: Vec::new(),
            push_comment: false,
        };
        assert(message_texts(r.messages@) =~= Seq::empty());
        r
    }

    pub fn edit_mode(&mut self)
        ensures
            final(self)@ == (CommentsView { input_mode: InputMode::Editing, ..old(self)@ }),
    {
        self.input_mode = InputMode::Editing
    }

    pub fn normal_mode(&mut self)
        ensures
            final(self)@ == (CommentsView { input_mode: InputMode::Normal, ..old(self)@ }),
    {
        self.input_mode = InputMode::Normal
    }

    /// Handles one key and says whether the popup used it.
    pub fn event(&mut self, key: Key) -> (r: EventState)
        ensures
            (final(self)@, r) == old(self)@.event(key),
    {
        match self.input_mode {
            InputMode::Normal => match key {
                Key::Char(c) => {
                    if c == 'e' {
                        self.edit_mode();
                        return EventState::Consumed;
                    }
                    if c == 'P' {
                        self.push_comment = true;
                        return EventState::Consumed;
                    }
                },
                _ => {},
            },
            InputMode::Editing => match key {
                Key::Char(c) => {
                    self.input.push(c);
                    return EventState::Consumed;
                },
                Key::Backspace => {
                    self.input.pop();
                    return EventState::Consumed;
                },
                Key::Esc => {
                    self.normal_mode();
                    return EventState::Consumed;
                },
                Key::Enter => {
                    let message = self.input.clone();
                    self.messages.push(message);
                    self.input.clear();
                    assert(message_texts(self.messages@) =~= message_texts(
                        old(self).messages@,
                    ).push(old(self).input@));
                    return EventState::Consumed;
                },
                _ => {},
            },
        }
        EventState::NotConsumed
    }

    /// Where the terminal cursor belongs while the input is edited: in the
    /// input box whose top left corner is at `(x, y)`, one line below the
    /// border and one cell past the end of the input. While nothing is
    /// edited the cursor stays hidden.
    pub fn cursor(&self, x: u16, y: u16) -> (r: Option<(u16, u16)>)
        ensures
            r == cursor_position(self@, x, y),
    {
        match self.input_mode {
            InputMode::Normal => None,
            InputMode::Editing => {
                let len: usize = self.input.as_str().len();
                let column: u16 = if len >= 0xffff || 0xffff - len <= x as usize {
                    0xffff
                } else {
                    let ahead: u16 = len as u16;
                    x + ahead + 1
                };
                let line: u16 = if y == 0xffff {
                    0xffff
                } else {
                    y + 1
                };
                Some((column, line))
            },
        }
    }

    /// The messages recorded so far.
    pub fn messages(&self) -> (r: &Vec<String>)
        ensures
            message_texts(r@) == self@.messages,
    {
        &self.messages
    }

    /// Whether the operator asked to push the recorded messages.
    pub fn push_comment(&self) -> (r: bool)
        ensures
            r == self@.push_comment,
    {
        self.push_comment
    }

    /// Hands out the recorded messages for pushing, and starts over with an
    /// empty history and no push asked for.
    pub fn take_messages(&mut self) -> (r: Vec<String>)
        ensures
            message_texts(r@) == old(self)@.messages,
            final(self)@ == (CommentsView {
                messages: Seq::empty(),
                push_comment: false,
                ..old(self)@
            }),
    {
        let mut messages: Vec<String> = Vec::new();
        std::mem::swap(&mut messages, &mut self.messages);
        self.push_comment = false;
        assert(message_texts(self.messages@) =~= Seq::empty());
        messages
    }

    /// The text in the input box.
    pub fn input(&self) -> (r: &String)
        ensures
            r@ == self@.input,
    {
        &self.input
    }

    pub fn input_mode(&self) -> (r: InputMode)
        ensures
            r == self@.input_mode,
    {
        self.input_mode
    }
}

/// Typing a message and taking all of it back leaves the input as it was.
pub proof fn lemma_backspace_undoes_character(v: CommentsView, c: char)
    requires
        v.input_mode == InputMode::Editing,
    ensures
        v.event(Key::Char(c)).0.event(Key::Backspace).0 == v,
{
    assert(v.input.push(c).drop_last() =~= v.input);
}

/// Recording a message empties the input and adds exactly that message at
/// the end of the history.
pub proof fn lemma_enter_records_input(v: CommentsView)
    requires
        v.input_mode == InputMode::Editing,
    ensures
        v.event(Key::Enter).0.input.len() == 0,
        v.event(Key::Enter).0.messages.len() == v.messages.len() + 1,
        v.event(Key::Enter).0.messages.last() == v.input,
        v.event(Key::Enter).0.messages.drop_last() == v.messages,
{
    assert(v.messages.push(v.input).drop_last() =~= v.messages);
}

} // verus!
