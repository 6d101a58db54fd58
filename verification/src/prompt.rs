//! A one-line prompt as a state: the text typed so far and the cursor in
//! it, moved on by one key at a time.

use vstd::prelude::*;

verus! {

/// A key as the prompt tells keys apart.
#[derive(Clone, Copy, PartialEq, Eq, Structural, Debug)]
pub enum Key {
    Char(char),
    Enter,
    /// The interrupt key, Ctrl-C.
    Interrupt,
    Delete,
    Backspace,
    Left,
    Right,
    /// Any key that the prompt ignores.
    Other,
}

/// What a key means for the read.
#[derive(Clone, Copy, PartialEq, Eq, Structural, Debug)]
pub enum KeyOutcome {
    /// Show the prompt again and read the next key.
    Continue,
    /// The line is complete.
    Submit,
    /// The user gave up: the whole operation ends.
    Interrupted,
}

/// What to show: the message, a colon and a space, then the text unless
/// it is secret, with the cursor in `column`.
#[derive(Debug, PartialEq, Eq)]
pub struct Screen {
    pub text: Option<String>,
    pub column: u16,
}

#[derive(Debug, PartialEq, Eq)]
pub struct Prompt {
    pub msg: &'static str,
    /// The text is a secret and is not shown.
    pub password: bool,
    pub input: Vec<char>,
    /// Where in `input` the next character goes.
    pub cursor_idx: usize,
}

/// Collects the characters into a `String` with `String::from_iter`,
/// which keeps each character and their order.
#[verifier::external_body]
fn text_of(chars: &Vec<char>) -> (r: String)
    ensures
        r@ == chars@,
{
    String::from_iter(chars.iter())
}

/// The state and the outcome after a key.
pub open spec fn after_key(input: Seq<char>, cursor: int, key: Key) -> (Seq<char>, int, KeyOutcome) {
    match key {
        Key::Interrupt => (input, cursor, KeyOutcome::Interrupted),
        Key::Enter => (input, cursor, KeyOutcome::Submit),
        Key::Char(c) => (input.insert(cursor, c), cursor + 1, KeyOutcome::Continue),
        Key::Delete => (after_delete(input, cursor), cursor, KeyOutcome::Continue),
        Key::Backspace => (
            after_delete(input, after_left(cursor)),
            after_left(cursor),
            KeyOutcome::Continue,
        ),
        Key::Left => (input, after_left(cursor), KeyOutcome::Continue),
        Key::Right => (
            input,
            if cursor + 1 < input.len() {
                cursor + 1
            } else {
                cursor
            },
            KeyOutcome::Continue,
        ),
        Key::Other => (input, cursor, KeyOutcome::Continue),
    }
}

/// The cursor one place to the left, if it is not at the start.
pub open spec fn after_left(cursor: int) -> int {
    if cursor > 0 {
        cursor - 1
    } else {
        cursor
    }
}

/// The text without the character under the cursor, if there is one.
pub open spec fn after_delete(input: Seq<char>, cursor: int) -> Seq<char> {
    if 0 <= cursor < input.len() {
        input.remove(cursor)
    } else {
        input
    }
}

/// The column of the cursor on the screen; 0 where it does not fit `u16`.
pub open spec fn cursor_column(msg_len: int, cursor: int) -> int {
    if msg_len + cursor + 2 <= u16::MAX {
        msg_len + cursor + 2
    } else {
        0
    }
}

impl Prompt {
    /// The cursor is inside the text or right behind it.
    pub open spec fn wf(self) -> bool {
        self.cursor_idx <= self.input@.len()
    }

    pub fn new(msg: &'static str, password: bool) -> (r: Prompt)
        ensures
            r.wf(),
            r.msg == msg,
            r.password == password,
            r.input@.len() == 0,
            r.cursor_idx == 0,
    {
        Prompt { msg, password, input: Vec::new(), cursor_idx: 0 }
    }

    /// What to show before the next key is read.
    pub fn print(&self) -> (r: Screen)
        requires
            self.wf(),
        ensures
            r.column == cursor_column(self.msg.len() as int, self.cursor_idx as int),
            self.password ==> r.text.is_none(),
            !self.password ==> r.text.is_some() && r.text.unwrap()@ == self.input@,
    {
        let limit: usize = 65535;
        let len = self.msg.len();
        let column: u16 = if len > limit || self.cursor_idx > limit || len + self.cursor_idx + 2
            > limit {
            0
        } else {
            (len + self.cursor_idx + 2) as u16
        };
        let text = if self.password {
            None
        } else {
            Some(text_of(&self.input))
        };
        Screen { text, column }
    }

    /// Takes in one key.
    pub fn handle_key(&mut self, key: Key) -> (r: KeyOutcome)
        requires
            old(self).wf(),
        ensures
            final(self).wf(),
            final(self).msg == old(self).msg,
            final(self).password == old(self).password,
            (final(self).input@, final(self).cursor_idx as int, r) == after_key(
                old(self).input@,
                old(self).cursor_idx as int,
                key,
            ),
    {
        match key {
            Key::Interrupt => {
                return KeyOutcome::Interrupted;
            },
            Key::Enter => {
                return KeyOutcome::Submit;
            },
            Key::Char(c) => {
                self.input.insert(self.cursor_idx, c);
                let len = self.input.len();
                assert(self.cursor_idx < len);
                self.cursor_idx = self.cursor_idx + 1;
            },
            Key::Delete => {
                if self.input.len() > 0 {
                    self.delete();
                }
            },
            Key::Backspace => {
                if self.input.len() > 0 {
                    self.left();
                    self.delete();
                }
            },
            Key::Left => self.left(),
            Key::Right => {
                if self.cursor_idx < self.input.len() && self.cursor_idx + 1 < self.input.len() {
                    self.cursor_idx = self.cursor_idx + 1;
                }
            },
            Key::Other => {},
        }
        KeyOutcome::Continue
    }

    /// Moves the cursor one place to the left, if it is not at the start.
    pub fn left(&mut self)
        requires
            old(self).wf(),
        ensures
            final(self).wf(),
            final(self).msg == old(self).msg,
            final(self).password == old(self).password,
            final(self).input == old(self).input,
            final(self).cursor_idx == after_left(old(self).cursor_idx as int),
    {
        if self.cursor_idx > 0 {
            self.cursor_idx = self.cursor_idx - 1;
        }
    }

    /// Removes the character under the cursor, if there is one.
    pub fn delete(&mut self)
        requires
            old(self).wf(),
        ensures
            final(self).wf(),
            final(self).msg == old(self).msg,
            final(self).password == old(self).password,
            final(self).cursor_idx == old(self).cursor_idx,
            final(self).input@ == after_delete(old(self).input@, old(self).cursor_idx as int),
    {
        if self.cursor_idx < self.input.len() {
            self.input.remove(self.cursor_idx);
        }
    }

    /// The text typed so far.
    pub fn text(&self) -> (r: String)
        ensures
            r@ == self.input@,
    {
        text_of(&self.input)
    }
}

/// A prompt whose text is shown while it is typed.
pub fn simple(msg: &'static str) -> (r: Prompt)
    ensures
        r.wf(),
        r.msg == msg,
        !r.password,
        r.input@.len() == 0,
        r.cursor_idx == 0,
{
    Prompt::new(msg, false)
}

/// A prompt whose text stays hidden.
pub fn password(msg: &'static str) -> (r: Prompt)
    ensures
        r.wf(),
        r.msg == msg,
        r.password,
        r.input@.len() == 0,
        r.cursor_idx == 0,
{
    Prompt::new(msg, true)
}

} // verus!
