//! Logical key events and the command each one maps to.

use vstd::prelude::*;
use crate::slots::SlotId;

verus! {

/// A logical key event, as the input layer delivers them: one event per raw
/// byte read. Byte 3 is Interrupt, byte 4 is EndOfInput, and any other byte
/// is a Character carrying that byte as a character.
#[derive(Clone, Copy, PartialEq, Eq, Structural, Debug)]
pub enum KeyEvent {
    Interrupt,
    EndOfInput,
    Character(char),
}

/// The command a key event stands for in the dispatcher's transition table.
#[derive(Clone, Copy, PartialEq, Eq, Structural, Debug)]
pub enum Command {
    Next,
    Prev,
    Recall(SlotId),
    Program(SlotId),
    StopAll,
    Quit,
    Other,
}

/// The key event for one raw input byte.
pub open spec fn event_of_byte(b: u8) -> KeyEvent {
    if b == 3 {
        KeyEvent::Interrupt
    } else if b == 4 {
        KeyEvent::EndOfInput
    } else {
        KeyEvent::Character(b as char)
    }
}

/// The dispatcher's reading of a key event. Interrupt quits like the quit
/// key; EndOfInput ends the input loop, so it reaches shutdown the same way.
pub open spec fn command_of(ev: KeyEvent) -> Command {
    match ev {
        KeyEvent::Interrupt => Command::Quit,
        KeyEvent::EndOfInput => Command::Quit,
        KeyEvent::Character(c) => if c == 'j' || c == 'i' {
            Command::Next
        } else if c == 'k' || c == 'o' {
            Command::Prev
        } else if c == 'z' {
            Command::Recall(SlotId::A)
        } else if c == 'x' {
            Command::Recall(SlotId::B)
        } else if c == 'c' {
            Command::Recall(SlotId::C)
        } else if c == 'v' {
            Command::Recall(SlotId::D)
        } else if c == 'Z' {
            Command::Program(SlotId::A)
        } else if c == 'X' {
            Command::Program(SlotId::B)
        } else if c == 'C' {
            Command::Program(SlotId::C)
        } else if c == 'V' {
            Command::Program(SlotId::D)
        } else if c == 's' {
            Command::StopAll
        } else if c == 'q' {
            Command::Quit
        } else {
            Command::Other
        },
    }
}

/// Translates one raw input byte into its logical key event.
pub fn key_event_of_byte(b: u8) -> (r: KeyEvent)
    ensures
        r == event_of_byte(b),
{
    if b == 3 {
        KeyEvent::Interrupt
    } else if b == 4 {
        KeyEvent::EndOfInput
    } else {
        KeyEvent::Character(b as char)
    }
}

} // verus!
