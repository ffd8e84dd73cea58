//! The line editor: the input buffer, the command history and the history
//! cursor, with one mutating method per editing event.
//!
//! Each method is specified against a functional model (`EditorModel` and
//! the `*_model` step functions), so that laws about whole event sequences
//! can be stated and proved over the model alone.
//!
//! The history cursor obeys one clear rule: it always lies in
//! `[0, history.len()]`, it is reset to `history.len()` by every commit
//! (a fresh prompt cycle starts past the newest entry), and recalls clamp
//! it into `[0, history.len() - 1]` — up never wraps below the oldest
//! entry, down never wraps past the newest.

use vstd::prelude::*;
use crate::dispatch::{dispatch_line, dispatch_ok, Action};
use crate::text::{char_views, copy_chars, trim, trim_spec};

verus! {

/// The mathematical state of the editor: the current line, the committed
/// history (oldest first) and the history cursor.
#[verifier::ext_equal]
pub struct EditorModel {
    pub buffer: Seq<char>,
    pub history: Seq<Seq<char>>,
    pub cursor: int,
}

/// The cursor always lies in `[0, history.len()]`.
pub open spec fn wf_model(m: EditorModel) -> bool {
    0 <= m.cursor <= m.history.len()
}

/// The state a shell starts in: nothing typed, nothing remembered.
pub open spec fn init_model() -> EditorModel {
    EditorModel { buffer: Seq::empty(), history: Seq::empty(), cursor: 0 }
}

/// Appending a literal character: the buffer grows by that character and
/// nothing else moves.
pub open spec fn append_model(m: EditorModel, c: char) -> EditorModel {
    EditorModel { buffer: m.buffer.push(c), ..m }
}

/// Backspace: the last character goes, if there is one; at an empty buffer
/// nothing happens.
pub open spec fn backspace_model(m: EditorModel) -> EditorModel {
    if m.buffer.len() > 0 {
        EditorModel { buffer: m.buffer.drop_last(), ..m }
    } else {
        m
    }
}

/// Recalling upward: the cursor moves one entry toward the oldest, never
/// below it, and the buffer becomes the entry now under the cursor. With
/// an empty history only the cursor rule applies (it stays at 0) and the
/// buffer is untouched.
pub open spec fn up_model(m: EditorModel) -> EditorModel {
    let cur = if m.cursor > 0 {
        m.cursor - 1
    } else {
        0
    };
    if m.history.len() > 0 {
        EditorModel { buffer: m.history[cur], history: m.history, cursor: cur }
    } else {
        EditorModel { cursor: cur, ..m }
    }
}

/// Recalling downward: the cursor moves one entry toward the newest, never
/// past it, and the buffer becomes the entry now under the cursor. With an
/// empty history nothing happens.
pub open spec fn down_model(m: EditorModel) -> EditorModel {
    if m.history.len() > 0 {
        let cur = if m.cursor + 1 < m.history.len() {
            m.cursor + 1
        } else {
            m.history.len() - 1
        };
        EditorModel { buffer: m.history[cur], history: m.history, cursor: cur }
    } else {
        m
    }
}

/// Committing the line: the trimmed line is appended to history exactly
/// once — whatever it holds, even empty or `exit` — the buffer is cleared,
/// and the cursor is reset past the newest entry for the next prompt cycle.
pub open spec fn commit_model(m: EditorModel) -> EditorModel {
    EditorModel {
        buffer: Seq::empty(),
        history: m.history.push(trim_spec(m.buffer)),
        cursor: m.history.len() as int + 1,
    }
}

/// The line editor state, owned by the shell loop.
pub struct Editor {
    buffer: Vec<char>,
    history: Vec<Vec<char>>,
    cursor: usize,
}

impl View for Editor {
    type V = EditorModel;

    closed spec fn view(&self) -> EditorModel {
        EditorModel {
            buffer: self.buffer@,
            history: char_views(self.history@),
            cursor: self.cursor as int,
        }
    }
}

impl Editor {
    /// The editor's invariant: its model is well formed.
    pub open spec fn wf(&self) -> bool {
        wf_model(self@)
    }

    /// A fresh editor with empty buffer and history.
    pub fn new() -> (e: Editor)
        ensures
            e.wf(),
            e@ == init_model(),
    {
        let e = Editor { buffer: Vec::new(), history: Vec::new(), cursor: 0 };
        proof {
            assert(e@ =~~= init_model());
        }
        e
    }

    /// Appends one typed character to the input buffer.
    pub fn appendbuf(&mut self, c: char)
        requires
            old(self).wf(),
        ensures
            final(self).wf(),
            final(self)@ == append_model(old(self)@, c),
    {
        self.buffer.push(c);
        proof {
            assert(self@ =~~= append_model(old(self)@, c));
        }
    }

    /// Removes the last character of the input buffer, if any. Returns
    /// whether a character was removed (and so whether a glyph must be
    /// erased from the screen).
    pub fn backspace(&mut self) -> (erased: bool)
        requires
            old(self).wf(),
        ensures
            final(self).wf(),
            final(self)@ == backspace_model(old(self)@),
            erased == (old(self)@.buffer.len() > 0),
    {
        if self.buffer.len() > 0 {
            let _ = self.buffer.pop();
            proof {
                assert(self@ =~~= backspace_model(old(self)@));
            }
            true
        } else {
            proof {
                assert(self@ =~~= backspace_model(old(self)@));
            }
            false
        }
    }

    /// Moves the history cursor one entry toward the oldest, clamped at
    /// the oldest, and recalls the entry under it into the buffer.
    /// Returns whether an entry was recalled (and so whether the line must
    /// be redrawn); with an empty history nothing happens.
    pub fn historyup(&mut self) -> (recalled: bool)
        requires
            old(self).wf(),
        ensures
            final(self).wf(),
            final(self)@ == up_model(old(self)@),
            recalled == (old(self)@.history.len() > 0),
    {
        if self.cursor > 0 {
            self.cursor = self.cursor - 1;
        }
        if self.history.len() > 0 {
            self.buffer = copy_chars(&self.history[self.cursor]);
            proof {
                assert(char_views(self.history@)[self.cursor as int] == self.history@[
                    self.cursor as int]@);
                assert(self@ =~~= up_model(old(self)@));
            }
            true
        } else {
            proof {
                assert(self@ =~~= up_model(old(self)@));
            }
            false
        }
    }

    /// Moves the history cursor one entry toward the newest, clamped at
    /// the newest, and recalls the entry under it into the buffer.
    /// Returns whether an entry was recalled; with an empty history
    /// nothing happens.
    pub fn historydown(&mut self) -> (recalled: bool)
        requires
            old(self).wf(),
        ensures
            final(self).wf(),
            final(self)@ == down_model(old(self)@),
            recalled == (old(self)@.history.len() > 0),
    {
        if self.history.len() > 0 {
            if self.cursor < self.history.len() - 1 {
                self.cursor = self.cursor + 1;
            } else {
                self.cursor = self.history.len() - 1;
            }
            self.buffer = copy_chars(&self.history[self.cursor]);
            proof {
                assert(char_views(self.history@)[self.cursor as int] == self.history@[
                    self.cursor as int]@);
                assert(self@ =~~= down_model(old(self)@));
            }
            true
        } else {
            proof {
                assert(self@ =~~= down_model(old(self)@));
            }
            false
        }
    }

    /// Commits the current line: trims it, appends the trimmed line to
    /// history exactly once, clears the buffer, resets the cursor for the
    /// next prompt cycle, and returns the dispatch decision for the
    /// trimmed line.
    pub fn commit(&mut self) -> (a: Action)
        requires
            old(self).wf(),
        ensures
            final(self).wf(),
            final(self)@ == commit_model(old(self)@),
            dispatch_ok(trim_spec(old(self)@.buffer), a),
    {
        let t = trim(&self.buffer);
        let a = dispatch_line(&t);
        let ghost before = self.history@;
        self.history.push(t);
        proof {
            assert(char_views(self.history@) =~= char_views(before).push(t@));
        }
        self.buffer = Vec::new();
        self.cursor = self.history.len();
        proof {
            assert(self@ =~~= commit_model(old(self)@));
        }
        a
    }

    /// The number of recorded history entries.
    pub fn history_len(&self) -> (n: usize)
        ensures
            n == self@.history.len(),
    {
        self.history.len()
    }

    /// The history entry at index `i`, oldest first.
    pub fn history_entry(&self, i: usize) -> (entry: &Vec<char>)
        requires
            i < self@.history.len(),
        ensures
            entry@ == self@.history[i as int],
    {
        &self.history[i]
    }

    /// The characters currently in the input buffer.
    pub fn buffer_chars(&self) -> (buf: &Vec<char>)
        ensures
            buf@ == self@.buffer,
    {
        &self.buffer
    }
}

} // verus!
