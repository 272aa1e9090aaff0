//! Keys as the bindings know them, and how a terminal keypress becomes one.

use vstd::prelude::*;
use vstd::string::*;

verus! {

/// `String::push` appends the given character to the end of the string.
pub assume_specification[ String::push ](text: &mut String, ch: char)
    ensures
        final(text)@ == old(text)@.push(ch),
;

/// A normalized keypress.
#[derive(PartialEq, Eq, Clone, Copy, Hash, Debug, Structural)]
pub enum Key {
    /// Both Enter (or Return) and numpad Enter
    Enter,
    /// Tabulation key
    Tab,
    ShiftTab,
    /// Backspace key
    Backspace,
    /// Escape key
    Esc,
    /// Left arrow
    Left,
    /// Right arrow
    Right,
    /// Up arrow
    Up,
    /// Down arrow
    Down,
    /// Insert key
    Ins,
    /// Delete key
    Delete,
    /// Home key
    Home,
    /// End key
    End,
    /// Page Up key
    PageUp,
    /// Page Down key
    PageDown,
    /// F key
    F(u8),
    Char(char),
    Ctrl(char),
    Alt(char),
    Unknown,
}

/// The key of a terminal keypress, as far as decoding tells keys apart.
/// Everything the bindings have no name for is `Other`.
#[derive(PartialEq, Eq, Clone, Copy, Hash, Debug, Structural)]
pub enum KeyCode {
    Backspace,
    Enter,
    Left,
    Right,
    Up,
    Down,
    Home,
    End,
    PageUp,
    PageDown,
    Tab,
    Delete,
    Insert,
    F(u8),
    Char(char),
    Esc,
    Other,
}

/// Modifier mask of a keypress with no modifier held.
pub const NONE: u8 = 0x00;

/// Modifier bit of the shift key.
pub const SHIFT: u8 = 0x01;

/// Modifier bit of the control key.
pub const CONTROL: u8 = 0x02;

/// Modifier bit of the alt key.
pub const ALT: u8 = 0x04;

/// A keypress as the terminal reports it: the key, and the modifiers held
/// with it as a bit mask.
#[derive(PartialEq, Eq, Clone, Copy, Hash, Debug, Structural)]
pub struct KeyPress {
    pub code: KeyCode,
    pub modifiers: u8,
}

/// The key that a character stands for under a modifier mask.  Alt and
/// control count only when held alone; any other mask leaves the character
/// as typed.
pub open spec fn char_key(c: char, modifiers: u8) -> Key {
    if modifiers == ALT {
        Key::Alt(c)
    } else if modifiers == CONTROL {
        Key::Ctrl(c)
    } else {
        Key::Char(c)
    }
}

/// The key that a keypress decodes to.  Named keys ignore the modifiers,
/// except that tab with shift alone is `ShiftTab`.
pub open spec fn decoded(press: KeyPress) -> Key {
    match press.code {
        KeyCode::Esc => Key::Esc,
        KeyCode::Backspace => Key::Backspace,
        KeyCode::Left => Key::Left,
        KeyCode::Right => Key::Right,
        KeyCode::Up => Key::Up,
        KeyCode::Down => Key::Down,
        KeyCode::Home => Key::Home,
        KeyCode::End => Key::End,
        KeyCode::PageUp => Key::PageUp,
        KeyCode::PageDown => Key::PageDown,
        KeyCode::Delete => Key::Delete,
        KeyCode::Insert => Key::Ins,
        KeyCode::F(n) => Key::F(n),
        KeyCode::Enter => Key::Enter,
        KeyCode::Tab => if press.modifiers == SHIFT {
            Key::ShiftTab
        } else {
            Key::Tab
        },
        KeyCode::Char(c) => char_key(c, press.modifiers),
        KeyCode::Other => Key::Unknown,
    }
}

impl KeyPress {
    pub fn new(code: KeyCode, modifiers: u8) -> (press: KeyPress)
        ensures
            press.code == code,
            press.modifiers == modifiers,
    {
        KeyPress { code, modifiers }
    }
}

impl vstd::std_specs::convert::FromSpecImpl<KeyPress> for Key {
    open spec fn obeys_from_spec() -> bool {
        true
    }

    open spec fn from_spec(press: KeyPress) -> Key {
        decoded(press)
    }
}

impl From<KeyPress> for Key {
    /// Decodes a keypress.  Every keypress has exactly one key; one that
    /// the bindings have no name for is `Unknown`.
    fn from(press: KeyPress) -> (key: Key)
        ensures
            key == decoded(press),
    {
        match press {
            KeyPress { code: KeyCode::Esc, .. } => Key::Esc,
            KeyPress { code: KeyCode::Backspace, .. } => Key::Backspace,
            KeyPress { code: KeyCode::Left, .. } => Key::Left,
            KeyPress { code: KeyCode::Right, .. } => Key::Right,
            KeyPress { code: KeyCode::Up, .. } => Key::Up,
            KeyPress { code: KeyCode::Down, .. } => Key::Down,
            KeyPress { code: KeyCode::Home, .. } => Key::Home,
            KeyPress { code: KeyCode::End, .. } => Key::End,
            KeyPress { code: KeyCode::PageUp, .. } => Key::PageUp,
            KeyPress { code: KeyCode::PageDown, .. } => Key::PageDown,
            KeyPress { code: KeyCode::Delete, .. } => Key::Delete,
            KeyPress { code: KeyCode::Insert, .. } => Key::Ins,
            KeyPress { code: KeyCode::F(n), .. } => Key::F(n),
            KeyPress { code: KeyCode::Enter, .. } => Key::Enter,
            KeyPress { code: KeyCode::Tab, modifiers } => {
                if modifiers == SHIFT {
                    Key::ShiftTab
                } else {
                    Key::Tab
                }
            },
            // First check for char + modifier
            KeyPress { code: KeyCode::Char(c), modifiers } => {
                if modifiers == ALT {
                    Key::Alt(c)
                } else if modifiers == CONTROL {
                    Key::Ctrl(c)
                } else {
                    Key::Char(c)
                }
            },
            KeyPress { code: KeyCode::Other, .. } => Key::Unknown,
        }
    }
}

/// The character that writes the digit `d`.
pub open spec fn digit(d: nat) -> char {
    if d == 0 {
        '0'
    } else if d == 1 {
        '1'
    } else if d == 2 {
        '2'
    } else if d == 3 {
        '3'
    } else if d == 4 {
        '4'
    } else if d == 5 {
        '5'
    } else if d == 6 {
        '6'
    } else if d == 7 {
        '7'
    } else if d == 8 {
        '8'
    } else {
        '9'
    }
}

/// `n` written in decimal, without leading zeros.
pub open spec fn decimal(n: nat) -> Seq<char>
    decreases n,
{
    if n < 10 {
        seq![digit(n)]
    } else {
        decimal(n / 10).push(digit(n % 10))
    }
}

/// How a key reads in a message to the user.
pub open spec fn text_of(key: Key) -> Seq<char> {
    match key {
        Key::Alt(c) => if c == ' ' {
            "<Alt+Space>"@
        } else {
            "<Alt+"@.push(c) + ">"@
        },
        Key::Ctrl(c) => if c == ' ' {
            "<Ctrl+Space>"@
        } else {
            "<Ctrl+"@.push(c) + ">"@
        },
        Key::Char(c) => if c == ' ' {
            "<Space>"@
        } else {
            seq![c]
        },
        Key::Left => "<Left Arrow Key>"@,
        Key::Right => "<Right Arrow Key>"@,
        Key::Up => "<Up Arrow Key>"@,
        Key::Down => "<Down Arrow Key>"@,
        Key::Enter => "<Enter>"@,
        Key::Tab => "<Tab>"@,
        Key::Backspace => "<Backspace>"@,
        Key::Esc => "<Esc>"@,
        Key::Ins => "<Ins>"@,
        Key::Delete => "<Delete>"@,
        Key::Home => "<Home>"@,
        Key::End => "<End>"@,
        Key::PageUp => "<PageUp>"@,
        Key::PageDown => "<PageDown>"@,
        Key::ShiftTab => "ShiftTab"@,
        Key::F(n) => ("F("@ + decimal(n as nat)) + ")"@,
        Key::Unknown => "Unknown"@,
    }
}

fn digit_char(d: u8) -> (c: char)
    requires
        d < 10,
    ensures
        c == digit(d as nat),
{
    match d {
        0 => '0',
        1 => '1',
        2 => '2',
        3 => '3',
        4 => '4',
        5 => '5',
        6 => '6',
        7 => '7',
        8 => '8',
        _ => '9',
    }
}

/// Appends `n` in decimal to `text`.
fn push_decimal(text: &mut String, n: u8)
    ensures
        final(text)@ == old(text)@ + decimal(n as nat),
{
    if n >= 100 {
        text.push(digit_char(n / 100));
    }
    if n >= 10 {
        text.push(digit_char((n / 10) % 10));
    }
    text.push(digit_char(n % 10));
    proof {
        reveal_with_fuel(decimal, 3);
    }
}

/// `open`, then `c`, then a closing angle bracket.
fn bracketed(open: &str, c: char) -> (text: String)
    ensures
        text@ == open@.push(c) + ">"@,
{
    let mut text = String::from_str(open);
    text.push(c);
    text.append(">");
    text
}

impl Key {
    /// How the key reads in a message to the user: a character as
    /// itself, a named key in angle brackets, a space spelled out.
    pub fn text(&self) -> (text: String)
        ensures
            text@ == text_of(*self),
    {
        match *self {
            Key::Alt(' ') => String::from_str("<Alt+Space>"),
            Key::Ctrl(' ') => String::from_str("<Ctrl+Space>"),
            Key::Char(' ') => String::from_str("<Space>"),
            Key::Alt(c) => bracketed("<Alt+", c),
            Key::Ctrl(c) => bracketed("<Ctrl+", c),
            Key::Char(c) => {
                let mut text = String::new();
                text.push(c);
                text
            },
            Key::Left => String::from_str("<Left Arrow Key>"),
            Key::Right => String::from_str("<Right Arrow Key>"),
            Key::Up => String::from_str("<Up Arrow Key>"),
            Key::Down => String::from_str("<Down Arrow Key>"),
            Key::Enter => String::from_str("<Enter>"),
            Key::Tab => String::from_str("<Tab>"),
            Key::Backspace => String::from_str("<Backspace>"),
            Key::Esc => String::from_str("<Esc>"),
            Key::Ins => String::from_str("<Ins>"),
            Key::Delete => String::from_str("<Delete>"),
            Key::Home => String::from_str("<Home>"),
            Key::End => String::from_str("<End>"),
            Key::PageUp => String::from_str("<PageUp>"),
            Key::PageDown => String::from_str("<PageDown>"),
            Key::ShiftTab => String::from_str("ShiftTab"),
            Key::F(n) => {
                let mut text = String::from_str("F(");
                push_decimal(&mut text, n);
                text.append(")");
                text
            },
            Key::Unknown => String::from_str("Unknown"),
        }
    }
}

} // verus!
