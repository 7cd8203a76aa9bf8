//! What a key press asks the application to do.
use vstd::prelude::*;

verus! {

/// The actions a key can trigger in the normal (non-editing) mode.
#[derive(Debug, Clone, Copy, PartialEq, Eq, Structural)]
pub enum Action {
    Quit,
    TogglePause,
    ToggleLogging,
    ResetStats,
    CycleSamplingRate,
    ToggleAutoScale,
    ZoomIn,
    ZoomOut,
    ToggleHelp,
    StartFrequencyInput,
    StartOffsetInput,
    /// The key is not bound to anything.
    Nothing,
}

/// The keys the application tells apart.
#[derive(Debug, Clone, Copy, PartialEq, Eq, Structural)]
pub enum Key {
    Char(char),
    Backspace,
    Enter,
    Esc,
    Other,
}

/// A key press: the key, and whether Control was held.
#[derive(Debug, Clone, Copy, PartialEq, Eq, Structural)]
pub struct KeyPress {
    pub code: Key,
    pub ctrl: bool,
}

/// The action bound to a key press.
pub open spec fn key_action(key: KeyPress) -> Action {
    match key.code {
        Key::Char(c) => if c == 'q' {
            Action::Quit
        } else if c == 'c' && key.ctrl {
            Action::Quit
        } else if c == ' ' {
            Action::TogglePause
        } else if c == 'l' {
            Action::ToggleLogging
        } else if c == 'r' {
            Action::ResetStats
        } else if c == 's' {
            Action::CycleSamplingRate
        } else if c == 'a' {
            Action::ToggleAutoScale
        } else if c == '+' || c == '=' {
            Action::ZoomIn
        } else if c == '-' {
            Action::ZoomOut
        } else if c == '?' {
            Action::ToggleHelp
        } else if c == 'f' {
            Action::StartFrequencyInput
        } else if c == 'o' {
            Action::StartOffsetInput
        } else {
            Action::Nothing
        },
        _ => Action::Nothing,
    }
}

/// Maps a key press to its action.
pub fn handle_key(key: KeyPress) -> (r: Action)
    ensures
        r == key_action(key),
{
    match key.code {
        Key::Char('q') => Action::Quit,
        Key::Char('c') if key.ctrl => Action::Quit,
        Key::Char(' ') => Action::TogglePause,
        Key::Char('l') => Action::ToggleLogging,
        Key::Char('r') => Action::ResetStats,
        Key::Char('s') => Action::CycleSamplingRate,
        Key::Char('a') => Action::ToggleAutoScale,
        Key::Char('+') | Key::Char('=') => Action::ZoomIn,
        Key::Char('-') => Action::ZoomOut,
        Key::Char('?') => Action::ToggleHelp,
        Key::Char('f') => Action::StartFrequencyInput,
        Key::Char('o') => Action::StartOffsetInput,
        _ => Action::Nothing,
    }
}

/// Whether a typed character is taken into a numeric entry: a decimal
/// digit, a point or a minus sign.
pub fn accepts_entry_char(c: char) -> (r: bool)
    ensures
        r == (('0' <= c && c <= '9') || c == '.' || c == '-'),
{
    ('0' <= c && c <= '9') || c == '.' || c == '-'
}

/// Only `q` and Control+C quit, and keys other than characters are not
/// bound to anything outside text entry.
pub proof fn law_only_q_and_ctrl_c_quit(key: KeyPress)
    ensures
        key_action(key) == Action::Quit ==> key.code == Key::Char('q') || (key.code == Key::Char(
            'c',
        ) && key.ctrl),
        key.code == Key::Char('q') ==> key_action(key) == Action::Quit,
        (key.code == Key::Char('c') && key.ctrl) ==> key_action(key) == Action::Quit,
        !(key.code is Char) ==> key_action(key) == Action::Nothing,
{
}

/// The value a text entry is for.
#[derive(Debug, Clone, Copy, PartialEq, Eq, Structural)]
pub enum InputKind {
    Frequency,
    Offset,
}

/// The prompt shown while entering a value of `kind`.
pub fn prompt_label(kind: InputKind) -> (r: &'static str)
    ensures
        r@ == match kind {
            InputKind::Frequency => "Freq (MHz): "@,
            InputKind::Offset => "Offset (dB): "@,
        },
{
    match kind {
        InputKind::Frequency => "Freq (MHz): ",
        InputKind::Offset => "Offset (dB): ",
    }
}

/// What a key press does to a text entry.
#[derive(Debug, Clone, Copy, PartialEq, Eq, Structural)]
pub enum EditResult {
    /// Keep editing.
    Continue,
    /// Enter: take the text as entered.
    Submit,
    /// Escape: drop the entry.
    Cancel,
}

/// Appends `c` to `s`.
///
/// Calls `String::push`, which appends the character to the end of the
/// string; the contract claims exactly that of the string's characters.
#[verifier::external_body]
fn string_push(s: &mut String, c: char)
    ensures
        final(s)@ == old(s)@.push(c),
{
    s.push(c);
}

/// Removes the last character of `s`, if there is one.
///
/// Calls `String::pop`, which removes the last character and returns it,
/// or returns `None` and leaves the string alone when it is empty; the
/// contract claims exactly that of the string's characters.
#[verifier::external_body]
fn string_pop(s: &mut String) -> (r: Option<char>)
    ensures
        old(s)@.len() == 0 ==> r is None && final(s)@ == old(s)@,
        old(s)@.len() > 0 ==> r == Some(old(s)@.last()) && final(s)@ == old(s)@.drop_last(),
{
    s.pop()
}

/// Applies a key press to the text of an entry: accepted characters are
/// appended, Backspace removes the last character, Enter submits and
/// Escape cancels; any other key is ignored.
pub fn edit_entry(buf: &mut String, key: KeyPress) -> (r: EditResult)
    ensures
        match key.code {
            Key::Char(c) => {
                &&& r == EditResult::Continue
                &&& final(buf)@ == if ('0' <= c && c <= '9') || c == '.' || c == '-' {
                    old(buf)@.push(c)
                } else {
                    old(buf)@
                }
            },
            Key::Backspace => {
                &&& r == EditResult::Continue
                &&& final(buf)@ == if old(buf)@.len() > 0 {
                    old(buf)@.drop_last()
                } else {
                    old(buf)@
                }
            },
            Key::Enter => r == EditResult::Submit && final(buf)@ == old(buf)@,
            Key::Esc => r == EditResult::Cancel && final(buf)@ == old(buf)@,
            Key::Other => r == EditResult::Continue && final(buf)@ == old(buf)@,
        },
{
    match key.code {
        Key::Char(c) => {
            if accepts_entry_char(c) {
                string_push(buf, c);
            }
            EditResult::Continue
        },
        Key::Backspace => {
            string_pop(buf);
            EditResult::Continue
        },
        Key::Enter => EditResult::Submit,
        Key::Esc => EditResult::Cancel,
        Key::Other => EditResult::Continue,
    }
}

} // verus!
