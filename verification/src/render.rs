//! Rendering: the characters the shell writes to redraw its line.
//!
//! The editor does all visual feedback itself, since a raw-mode terminal
//! echoes nothing. A full-line redraw emits carriage return,
//! clear-to-end-of-line, carriage return, the prompt, then the line text,
//! so no stale glyphs survive from the previous buffer content.

use vstd::prelude::*;

verus! {

/// The prompt for a working directory: the directory followed by `> `.
pub open spec fn prompt_spec(cwd: Seq<char>) -> Seq<char> {
    cwd + seq!['>', ' ']
}

/// A full-line redraw: carriage return, the ANSI clear-to-end-of-line
/// sequence, carriage return, the prompt, then the line text.
pub open spec fn redraw_spec(cwd: Seq<char>, text: Seq<char>) -> Seq<char> {
    seq!['\r', '\u{1B}', '[', 'K', '\r'] + prompt_spec(cwd) + text
}

/// Appends the characters of `src` to `dst`.
fn push_all(dst: &mut Vec<char>, src: &Vec<char>)
    ensures
        final(dst)@ == old(dst)@ + src@,
{
    let ghost base = old(dst)@;
    let mut i: usize = 0;
    while i < src.len()
        invariant
            i <= src@.len(),
            dst@ == base + src@.subrange(0, i as int),
        decreases src@.len() - i,
    {
        proof {
            assert((base + src@.subrange(0, i as int)).push(src@[i as int]) =~= base
                + src@.subrange(0, i + 1 as int));
        }
        dst.push(src[i]);
        i = i + 1;
    }
    proof {
        assert(base + src@.subrange(0, src@.len() as int) =~= base + src@);
    }
}

/// Builds the prompt line for a working directory.
pub fn prompt_line(cwd: &Vec<char>) -> (out: Vec<char>)
    ensures
        out@ == prompt_spec(cwd@),
{
    let mut out: Vec<char> = Vec::new();
    proof {
        assert(out@ + cwd@ =~= cwd@);
    }
    push_all(&mut out, cwd);
    out.push('>');
    out.push(' ');
    proof {
        assert(out@ =~= prompt_spec(cwd@));
    }
    out
}

/// Builds the characters of a full-line redraw for a working directory and
/// the current line text.
pub fn redraw_line(cwd: &Vec<char>, text: &Vec<char>) -> (out: Vec<char>)
    ensures
        out@ == redraw_spec(cwd@, text@),
{
    let mut out: Vec<char> = Vec::new();
    out.push('\r');
    out.push('\u{1B}');
    out.push('[');
    out.push('K');
    out.push('\r');
    push_all(&mut out, cwd);
    out.push('>');
    out.push(' ');
    push_all(&mut out, text);
    proof {
        assert(out@ =~= redraw_spec(cwd@, text@));
    }
    out
}

} // verus!
