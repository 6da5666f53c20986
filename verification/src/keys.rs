//! Keyboard and mouse input as plain values.

use vstd::prelude::*;
use crossterm::event::KeyCode;
use crate::navigation::decimal_text;

verus! {

/// A key of the keyboard.
#[derive(Clone, Copy, Debug, PartialEq, Eq, Structural, Hash)]
pub enum Key {
    Char(char),
    Enter,
    Esc,
    Tab,
    BackTab,
    Backspace,
    Delete,
    Insert,
    Left,
    Right,
    Up,
    Down,
    Home,
    End,
    PageUp,
    PageDown,
    F(u8),
    Null,
}

impl Key {
    /// A number that stands for the key: the character's code point for
    /// `Char`, a number above all code points for the others.
    pub open spec fn spec_code(self) -> u64 {
        match self {
            Key::Char(c) => c as u64,
            Key::Enter => 0x110000,
            Key::Esc => 0x110001,
            Key::Tab => 0x110002,
            Key::BackTab => 0x110003,
            Key::Backspace => 0x110004,
            Key::Delete => 0x110005,
            Key::Insert => 0x110006,
            Key::Left => 0x110007,
            Key::Right => 0x110008,
            Key::Up => 0x110009,
            Key::Down => 0x11000a,
            Key::Home => 0x11000b,
            Key::End => 0x11000c,
            Key::PageUp => 0x11000d,
            Key::PageDown => 0x11000e,
            Key::Null => 0x11000f,
            Key::F(n) => (0x120000 + n) as u64,
        }
    }

    #[verifier::when_used_as_spec(spec_code)]
    pub fn code(self) -> (n: u64)
        ensures
            n == self.spec_code(),
    {
        match self {
            Key::Char(c) => c as u64,
            Key::Enter => 0x110000,
            Key::Esc => 0x110001,
            Key::Tab => 0x110002,
            Key::BackTab => 0x110003,
            Key::Backspace => 0x110004,
            Key::Delete => 0x110005,
            Key::Insert => 0x110006,
            Key::Left => 0x110007,
            Key::Right => 0x110008,
            Key::Up => 0x110009,
            Key::Down => 0x11000a,
            Key::Home => 0x11000b,
            Key::End => 0x11000c,
            Key::PageUp => 0x11000d,
            Key::PageDown => 0x11000e,
            Key::Null => 0x11000f,
            Key::F(n) => 0x120000 + n as u64,
        }
    }

    /// Two keys with the same code are the same key.
    pub proof fn lemma_code_injective(a: Key, b: Key)
        requires
            a.spec_code() == b.spec_code(),
        ensures
            a == b,
    {
        if let Key::Char(c) = a {
            assert(c as u64 <= 0x10ffff);
        }
        if let Key::Char(c) = b {
            assert(c as u64 <= 0x10ffff);
        }
    }
}

/// The codes of a sequence of keys.
pub open spec fn codes_of(keys: Seq<Key>) -> Seq<u64> {
    keys.map_values(|k: Key| k.spec_code())
}

/// Whether `label` is a name under which the terminal library shows a key.
/// A character other than the space is its own name, every other key has a
/// fixed name, and Enter, Backspace and Delete have one of two names each,
/// according to the platform.
pub open spec fn names_key(label: Seq<char>, key: Key) -> bool {
    match key {
        Key::Char(c) => label == (if c == ' ' {
            "Space"@
        } else {
            seq![c]
        }),
        Key::Enter => label == "Enter"@ || label == "Return"@,
        Key::Backspace => label == "Backspace"@ || label == "Delete"@,
        Key::Delete => label == "Del"@ || label == "Fwd Del"@,
        Key::Esc => label == "Esc"@,
        Key::Tab => label == "Tab"@,
        Key::BackTab => label == "Back Tab"@,
        Key::Insert => label == "Insert"@,
        Key::Left => label == "Left"@,
        Key::Right => label == "Right"@,
        Key::Up => label == "Up"@,
        Key::Down => label == "Down"@,
        Key::Home => label == "Home"@,
        Key::End => label == "End"@,
        Key::PageUp => label == "Page Up"@,
        Key::PageDown => label == "Page Down"@,
        Key::F(n) => label == "F"@ + decimal_text(n as nat),
        Key::Null => label == "Null"@,
    }
}

/// Whether `label` is a name under which the terminal library shows the key
/// that has the code `code`.
pub open spec fn names_code(label: Seq<char>, code: u64) -> bool {
    exists|key: Key| #[trigger] key.spec_code() == code && names_key(label, key)
}

/// A name of the key with a code is a name of the key itself.
pub proof fn lemma_names_code(label: Seq<char>, key: Key)
    ensures
        names_code(label, key.spec_code()) == names_key(label, key),
{
    if names_code(label, key.spec_code()) {
        let other = choose|other: Key| #[trigger]
            other.spec_code() == key.spec_code() && names_key(label, other);
        Key::lemma_code_injective(other, key);
    }
}

/// The name under which a key is shown to the user, by the `Display` impl of
/// `crossterm::event::KeyCode`. The contract claims what that impl writes
/// for each key; for Enter, Backspace and Delete it writes one of two names
/// according to the platform, and the contract leaves open which.
#[verifier::external_body]
pub(crate) fn key_label(key: Key) -> (label: String)
    ensures
        names_key(label@, key),
{
    match key {
        Key::Char(c) => KeyCode::Char(c),
        Key::Enter => KeyCode::Enter,
        Key::Esc => KeyCode::Esc,
        Key::Tab => KeyCode::Tab, Key::BackTab => KeyCode::BackTab,
        Key::Backspace => KeyCode::Backspace, Key::Delete => KeyCode::Delete,
        Key::Insert => KeyCode::Insert,
        Key::Left => KeyCode::Left, Key::Right => KeyCode::Right,
        Key::Up => KeyCode::Up, Key::Down => KeyCode::Down,
        Key::Home => KeyCode::Home, Key::End => KeyCode::End,
        Key::PageUp => KeyCode::PageUp, Key::PageDown => KeyCode::PageDown,
        Key::F(n) => KeyCode::F(n),
        Key::Null => KeyCode::Null,
    }.to_string()
}

/// A key press: the key, and whether Control was held.
#[derive(Clone, Copy, Debug, PartialEq, Eq, Structural)]
pub struct KeyEvent {
    pub code: Key,
    pub control: bool,
}

/// What the mouse did.
#[derive(Clone, Copy, Debug, PartialEq, Eq, Structural)]
pub enum MouseEventKind {
    ScrollDown,
    ScrollUp,
    LeftDown,
    RightDown,
    Other,
}

/// A mouse event with the cell it happened on.
#[derive(Clone, Copy, Debug, PartialEq, Eq, Structural)]
pub struct MouseEvent {
    pub kind: MouseEventKind,
    pub row: u16,
    pub column: u16,
}

/// What came from the terminal.
#[derive(Clone, Copy, Debug, PartialEq, Eq, Structural)]
pub enum Event {
    Key(KeyEvent),
    Mouse(MouseEvent),
}

} // verus!
