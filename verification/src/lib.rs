//! A small interactive shell core: a verified line-editing state machine.
//!
//! The crate models the heart of a raw-mode command-line shell: a byte
//! classifier that turns the raw terminal byte stream into editing events,
//! a line editor that owns the input buffer, the command history and the
//! history cursor, and a dispatcher that decides what a committed line asks
//! for. All terminal and process I/O lives outside this crate; the library
//! works on plain characters and hands back plain decisions.

pub mod dispatch;
pub mod editor;
pub mod event;
pub mod laws;
pub mod render;
pub mod text;

use vstd::prelude::*;

verus! {

/// A single editing event, as classified from the raw byte stream.
#[derive(Clone, Copy, Debug, PartialEq, Eq, Structural)]
pub enum Event {
    /// A literal character to append to the input buffer.
    Literal(char),
    /// Backspace: remove the last character, if any.
    Backspace,
    /// Enter: commit the current line.
    Enter,
    /// Up arrow: recall the previous history entry.
    HistoryUp,
    /// Down arrow: recall the next history entry.
    HistoryDown,
}

} // verus!
