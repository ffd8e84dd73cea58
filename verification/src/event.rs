//! The escape-sequence classifier: a small state machine that turns the raw
//! terminal byte stream into editing events.
//!
//! The machine is either idle or collecting a suspected escape sequence.
//! An ESC byte starts a collection; once exactly three bytes have been
//! collected they are compared against the two recognized arrow-key
//! sequences, and anything else is silently dropped. Outside a collection,
//! a byte is an editing event of its own: Enter, Backspace, or a literal
//! character.

use vstd::prelude::*;
use crate::Event;

verus! {

/// The ESC byte that opens an escape sequence.
pub const ESC: u8 = 0x1B;

/// The classification of one byte arriving outside an escape sequence.
pub open spec fn literal_event(b: u8) -> Event {
    if b == 0x0D {
        Event::Enter
    } else if b == 0x08 || b == 0x7F {
        Event::Backspace
    } else {
        Event::Literal(b as char)
    }
}

/// One step of the classifier: from the current accumulator contents and
/// the next byte to the new accumulator contents and the event emitted, if
/// any.
pub open spec fn classify_step(acc: Seq<u8>, b: u8) -> (Seq<u8>, Option<Event>) {
    if acc.len() > 0 {
        let grown = acc.push(b);
        if grown.len() == 3 {
            if grown == seq![0x1Bu8, 0x5Bu8, 0x41u8] {
                (Seq::empty(), Some(Event::HistoryUp))
            } else if grown == seq![0x1Bu8, 0x5Bu8, 0x42u8] {
                (Seq::empty(), Some(Event::HistoryDown))
            } else {
                (Seq::empty(), None)
            }
        } else {
            (grown, None)
        }
    } else if b == 0x1B {
        (seq![0x1Bu8], None)
    } else {
        (Seq::empty(), Some(literal_event(b)))
    }
}

/// The classifier state: the bytes of a partially collected escape
/// sequence, empty when idle.
pub struct Classifier {
    esc: Vec<u8>,
}

impl Classifier {
    /// The accumulated escape-sequence bytes.
    pub closed spec fn acc(&self) -> Seq<u8> {
        self.esc@
    }

    /// A collection never reaches three bytes between steps, and always
    /// starts with ESC.
    pub closed spec fn wf(&self) -> bool {
        &&& self.esc@.len() < 3
        &&& self.esc@.len() > 0 ==> self.esc@[0] == 0x1B
    }

    /// A fresh, idle classifier.
    pub fn new() -> (c: Classifier)
        ensures
            c.wf(),
            c.acc() == Seq::<u8>::empty(),
    {
        Classifier { esc: Vec::new() }
    }

    /// Feeds one byte to the classifier and returns the event it emits,
    /// if any.
    pub fn step(&mut self, b: u8) -> (ev: Option<Event>)
        requires
            old(self).wf(),
        ensures
            final(self).wf(),
            final(self).acc() == classify_step(old(self).acc(), b).0,
            ev == classify_step(old(self).acc(), b).1,
    {
        if self.esc.len() > 0 {
            self.esc.push(b);
            if self.esc.len() == 3 {
                proof {
                    assert(self.esc@[0] == 0x1B);
                    assert(self.esc@ =~= seq![0x1Bu8, 0x5Bu8, 0x41u8] <==> (self.esc@[1] == 0x5B
                        && self.esc@[2] == 0x41));
                    assert(self.esc@ =~= seq![0x1Bu8, 0x5Bu8, 0x42u8] <==> (self.esc@[1] == 0x5B
                        && self.esc@[2] == 0x42));
                }
                let ev = if self.esc[1] == 0x5B && self.esc[2] == 0x41 {
                    Some(Event::HistoryUp)
                } else if self.esc[1] == 0x5B && self.esc[2] == 0x42 {
                    Some(Event::HistoryDown)
                } else {
                    None
                };
                self.esc.clear();
                ev
            } else {
                None
            }
        } else if b == ESC {
            self.esc.push(b);
            proof {
                assert(self.esc@ =~= seq![0x1Bu8]);
            }
            None
        } else if b == 0x0D {
            Some(Event::Enter)
        } else if b == 0x08 || b == 0x7F {
            Some(Event::Backspace)
        } else {
            Some(Event::Literal(b as char))
        }
    }
}

} // verus!
