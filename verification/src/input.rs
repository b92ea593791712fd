//! The input line and what reaches the debugger from the terminal.
//!
//! The input line is a `tui_input::Input`. The debugger sees it as a text
//! and a cursor position, and leaves the editing to that crate.

use vstd::prelude::*;
use crossterm::event::{Event, KeyCode, KeyEvent, KeyModifiers};
use tui_input::backend::crossterm::EventHandler;

verus! {

/// The modifier bit of the shift key.
pub const SHIFT: u8 = 0x01;

/// The modifier bit of the control key.
pub const CONTROL: u8 = 0x02;

/// The modifier bit of the alt key.
pub const ALT: u8 = 0x04;

/// A key of the keyboard.
#[derive(Clone, Copy, Debug, PartialEq, Eq)]
pub enum Key {
    Char(char),
    Backspace,
    Delete,
    Left,
    Right,
    Home,
    End,
    Esc,
    Up,
    Down,
    Enter,
    /// Any other key.
    Other,
}

/// A key going down, with the modifiers held while it did: one bit each,
/// from the lowest for shift, control, alt, super, hyper and meta.
#[derive(Clone, Copy, Debug, PartialEq, Eq)]
pub struct KeyPress {
    pub key: Key,
    pub modifiers: u8,
}

/// What the terminal reports.
#[derive(Clone, Copy, Debug, PartialEq, Eq)]
pub enum InputEvent {
    /// A key was pressed.
    Press(KeyPress),
    /// The mouse wheel was turned away from the user.
    ScrollUp,
    /// The mouse wheel was turned towards the user.
    ScrollDown,
    /// The left mouse button went down at a cell of the screen.
    Click { column: u16, row: u16 },
    /// Anything else.
    Other,
}

#[verifier::external_type_specification]
#[verifier::external_body]
pub struct ExInput(tui_input::Input);

/// The text that an input line holds.
pub uninterp spec fn input_text(input: tui_input::Input) -> Seq<char>;

/// The position of the cursor in an input line, counted in characters.
pub uninterp spec fn input_cursor(input: tui_input::Input) -> nat;

/// The text and the cursor of an input line after a key was pressed on it,
/// given the text and the cursor before.
pub uninterp spec fn edited(text: Seq<char>, cursor: nat, key: Key, modifiers: u8) -> (
    Seq<char>,
    nat,
);

/// `Input::default`: an empty line with the cursor at its start.
#[verifier::external_body]
pub(crate) fn input_new() -> (input: tui_input::Input)
    ensures
        input_text(input) == Seq::<char>::empty(),
        input_cursor(input) == 0,
{
    tui_input::Input::default()
}

/// `Input::with_value`, on a new line: the line holds the given text, and
/// the cursor stands behind its last character.
#[verifier::external_body]
pub(crate) fn input_with_value(text: String) -> (input: tui_input::Input)
    ensures
        input_text(input) == text@,
        input_cursor(input) == text@.len(),
{
    tui_input::Input::default().with_value(text)
}

/// `Input::value`: the text of the line.
#[verifier::external_body]
pub(crate) fn input_value(input: &tui_input::Input) -> (text: String)
    ensures
        text@ == input_text(*input),
{
    input.value().to_owned()
}

/// `Input::reset`: the line is emptied and the cursor goes to its start.
#[verifier::external_body]
pub(crate) fn input_reset(input: &mut tui_input::Input)
    ensures
        input_text(*final(input)) == Seq::<char>::empty(),
        input_cursor(*final(input)) == 0,
{
    input.reset()
}

/// `Input::handle_event`, on the press of a key: what the line holds
/// afterwards depends on what it held, on the key and on the modifiers,
/// and on nothing else.
#[verifier::external_body]
pub(crate) fn input_handle(input: &mut tui_input::Input, press: KeyPress)
    ensures
        (input_text(*final(input)), input_cursor(*final(input))) == edited(
            input_text(*old(input)),
            input_cursor(*old(input)),
            press.key,
            press.modifiers,
        ),
{
    let code = match press.key {
        Key::Char(c) => KeyCode::Char(c),
        Key::Backspace => KeyCode::Backspace,
        Key::Delete => KeyCode::Delete,
        Key::Left => KeyCode::Left,
        Key::Right => KeyCode::Right,
        Key::Home => KeyCode::Home,
        Key::End => KeyCode::End,
        Key::Esc => KeyCode::Esc,
        Key::Up => KeyCode::Up,
        Key::Down => KeyCode::Down,
        Key::Enter => KeyCode::Enter,
        Key::Other => KeyCode::Null,
    };
    input.handle_event(&Event::Key(KeyEvent::new(code, KeyModifiers::from_bits_truncate(press.modifiers))));
}

} // verus!
