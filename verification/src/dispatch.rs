//! The command dispatcher decision: from a trimmed command line to what the
//! shell should do with it.
//!
//! The decision is pure: it never touches the working directory, the
//! terminal or a child process. The caller carries the returned action out.

use vstd::prelude::*;
use crate::text::{char_views, split_words, words};

verus! {

/// What a committed line asks the shell to do.
#[derive(Debug, PartialEq, Eq)]
pub enum Action {
    /// The `exit` built-in: leave the shell.
    Exit,
    /// The `cd` built-in: change the working directory to the given target.
    ChangeDir(Vec<char>),
    /// The `history` built-in: list every recorded history entry.
    ShowHistory,
    /// Spawn an external program with the given argument list.
    Run(Vec<char>, Vec<Vec<char>>),
    /// An empty (all-whitespace) line: nothing to do.
    Nothing,
}

/// The characters of the `exit` built-in's name.
pub open spec fn exit_chars() -> Seq<char> {
    seq!['e', 'x', 'i', 't']
}

/// The characters of the `cd` built-in's name.
pub open spec fn cd_chars() -> Seq<char> {
    seq!['c', 'd']
}

/// The characters of the `history` built-in's name.
pub open spec fn history_chars() -> Seq<char> {
    seq!['h', 'i', 's', 't', 'o', 'r', 'y']
}

/// Where `cd` goes: its first argument if one is given, else the
/// filesystem root.
pub open spec fn cd_target(ws: Seq<Seq<char>>) -> Seq<char> {
    if ws.len() >= 2 {
        ws[1]
    } else {
        seq!['/']
    }
}

/// The dispatch decision for a trimmed line `t`: `exit` must be the whole
/// trimmed line, an all-whitespace line asks for nothing, `cd` and
/// `history` are matched on the first word, and anything else names an
/// external program with the remaining words as its arguments.
pub open spec fn dispatch_ok(t: Seq<char>, a: Action) -> bool {
    if t == exit_chars() {
        a is Exit
    } else if words(t).len() == 0 {
        a is Nothing
    } else if words(t)[0] == cd_chars() {
        a matches Action::ChangeDir(d) && d@ == cd_target(words(t))
    } else if words(t)[0] == history_chars() {
        a is ShowHistory
    } else {
        a matches Action::Run(p, args) && p@ == words(t)[0] && char_views(args@) == words(
            t,
        ).drop_first()
    }
}

/// Whether the line is exactly `exit`.
fn is_exit(t: &Vec<char>) -> (r: bool)
    ensures
        r == (t@ == exit_chars()),
{
    let r = t.len() == 4 && t[0] == 'e' && t[1] == 'x' && t[2] == 'i' && t[3] == 't';
    proof {
        assert(t@ =~= exit_chars() <==> (t@.len() == 4 && t@[0] == 'e' && t@[1] == 'x' && t@[2]
            == 'i' && t@[3] == 't'));
    }
    r
}

/// Whether the word is exactly `cd`.
fn is_cd(w: &Vec<char>) -> (r: bool)
    ensures
        r == (w@ == cd_chars()),
{
    let r = w.len() == 2 && w[0] == 'c' && w[1] == 'd';
    proof {
        assert(w@ =~= cd_chars() <==> (w@.len() == 2 && w@[0] == 'c' && w@[1] == 'd'));
    }
    r
}

/// Whether the word is exactly `history`.
fn is_history(w: &Vec<char>) -> (r: bool)
    ensures
        r == (w@ == history_chars()),
{
    let r = w.len() == 7 && w[0] == 'h' && w[1] == 'i' && w[2] == 's' && w[3] == 't' && w[4] == 'o'
        && w[5] == 'r' && w[6] == 'y';
    proof {
        assert(w@ =~= history_chars() <==> (w@.len() == 7 && w@[0] == 'h' && w@[1] == 'i' && w@[2]
            == 's' && w@[3] == 't' && w@[4] == 'o' && w@[5] == 'r' && w@[6] == 'y'));
    }
    r
}

/// Decides what a trimmed command line asks for.
pub fn dispatch_line(t: &Vec<char>) -> (a: Action)
    ensures
        dispatch_ok(t@, a),
{
    if is_exit(t) {
        return Action::Exit;
    }
    let mut ws = split_words(t);
    if ws.len() == 0 {
        proof {
            assert(words(t@).len() == 0);
        }
        return Action::Nothing;
    }
    proof {
        assert(char_views(ws@)[0] == ws@[0]@);
    }
    if is_cd(&ws[0]) {
        if ws.len() >= 2 {
            let ghost before = ws@;
            let d = ws.remove(1);
            proof {
                assert(char_views(before)[1] == d@);
            }
            Action::ChangeDir(d)
        } else {
            let mut d: Vec<char> = Vec::new();
            d.push('/');
            proof {
                assert(d@ =~= seq!['/']);
            }
            Action::ChangeDir(d)
        }
    } else if is_history(&ws[0]) {
        Action::ShowHistory
    } else {
        let ghost before = ws@;
        let p = ws.remove(0);
        proof {
            assert(p@ == char_views(before)[0]);
            assert(ws@ =~= before.drop_first());
            assert(char_views(ws@) =~= char_views(before).drop_first());
        }
        Action::Run(p, ws)
    }
}

} // verus!
