//! What the engine takes from the terminal libraries: decoded key events of
//! `crossterm` and the editable text buffer of `tui_input`. Nothing in this
//! file is proved; each contract restates what the library's source shows.

use crossterm::event::{Event, KeyCode, KeyEvent, KeyModifiers};
use tui_input::backend::crossterm::EventHandler;
use tui_input::Input;
use vstd::prelude::*;

verus! {

/// A key event as `crossterm` decodes it.
#[verifier::external_type_specification]
#[verifier::external_body]
pub struct ExKeyEvent(crossterm::event::KeyEvent);

/// The text buffer with a cursor of `tui_input`.
#[verifier::external_type_specification]
#[verifier::external_body]
pub struct ExInput(tui_input::Input);

/// The key of an event, as far as the engine tells keys apart.
#[derive(Debug, Clone, Copy, PartialEq, Eq, Structural)]
pub enum Key {
    Esc,
    Tab,
    Enter,
    Char(char),
    Other,
}

/// The key that `key` reports.
pub uninterp spec fn key_pressed(key: KeyEvent) -> Key;

/// Whether the modifiers of `key` are the control key and nothing else.
pub uninterp spec fn key_has_control(key: KeyEvent) -> bool;

/// Whether `key` is a plain press of the backspace key.
pub uninterp spec fn key_is_backspace(key: KeyEvent) -> bool;

/// The characters that `input` holds, in order.
pub uninterp spec fn input_text(input: Input) -> Seq<char>;

/// The buffer that `input` becomes when it handles `key`.
pub uninterp spec fn input_after_key(input: Input, key: KeyEvent) -> Input;

/// `Clone::clone` of `tui_input::Input`, which the crate derives: the copy
/// holds the same text and the same cursor.
pub assume_specification[ <tui_input::Input as Clone>::clone ](input: &Input) -> (copy: Input)
    ensures
        copy == *input,
;

/// Reads the `code` field of a `crossterm::event::KeyEvent` and keeps the
/// variants that the engine acts on; every other code is `Key::Other`.
#[verifier::external_body]
pub(crate) fn pressed_key(key: &KeyEvent) -> (pressed: Key)
    ensures
        pressed == key_pressed(*key),
{
    match key.code {
        KeyCode::Esc => Key::Esc,
        KeyCode::Tab => Key::Tab,
        KeyCode::Enter => Key::Enter,
        KeyCode::Char(c) => Key::Char(c),
        _ => Key::Other,
    }
}

/// Compares the `modifiers` field of a `crossterm::event::KeyEvent` with
/// `KeyModifiers::CONTROL`.
#[verifier::external_body]
pub(crate) fn has_control(key: &KeyEvent) -> (held: bool)
    ensures
        held == key_has_control(*key),
{
    key.modifiers == KeyModifiers::CONTROL
}

/// Compares a `crossterm::event::KeyEvent` with the event that
/// `KeyEvent::new` builds for the backspace key without modifiers.
#[verifier::external_body]
pub(crate) fn is_backspace(key: &KeyEvent) -> (deletion: bool)
    ensures
        deletion == key_is_backspace(*key),
{
    *key == KeyEvent::new(KeyCode::Backspace, KeyModifiers::NONE)
}

/// `Input::default` of `tui_input`: a buffer without text.
#[verifier::external_body]
pub(crate) fn empty_input() -> (input: Input)
    ensures
        input_text(input) == Seq::<char>::empty(),
{
    Input::default()
}

/// `Input::to_string` of `tui_input`: the text of the buffer.
#[verifier::external_body]
pub(crate) fn input_value(input: &Input) -> (text: String)
    ensures
        text@ == input_text(*input),
{
    input.to_string()
}

/// `Input::handle_event` of `tui_input` on a key event. The buffer that
/// comes back is named, not described; the source shows that one event
/// inserts at most one character and that a plain backspace inserts none.
#[verifier::external_body]
pub(crate) fn input_handle(input: Input, key: &KeyEvent) -> (edited: Input)
    ensures
        edited == input_after_key(input, *key),
        input_text(edited).len() <= input_text(input).len() + 1,
        key_is_backspace(*key) ==> input_text(edited).len() <= input_text(input).len(),
{
    let mut edited = input;
    edited.handle_event(&Event::Key(*key));
    edited
}

} // verus!
