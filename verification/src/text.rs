//! Character-level text helpers: the whitespace predicate, trimming, and
//! splitting a line into whitespace-separated words.

use vstd::prelude::*;

verus! {

/// A character with the Unicode `White_Space` property, which is the set
/// that `str::trim` and `str::split_whitespace` go by.
pub open spec fn is_space_char(c: char) -> bool {
    ||| (0x09 <= c as u32 && c as u32 <= 0x0D)
    ||| c == ' '
    ||| c == '\u{85}'
    ||| c == '\u{A0}'
    ||| c == '\u{1680}'
    ||| (0x2000 <= c as u32 && c as u32 <= 0x200A)
    ||| c == '\u{2028}'
    ||| c == '\u{2029}'
    ||| c == '\u{202F}'
    ||| c == '\u{205F}'
    ||| c == '\u{3000}'
}

/// Decides `is_space_char`.
pub fn is_space(c: char) -> (r: bool)
    ensures
        r == is_space_char(c),
{
    let u = c as u32;
    (0x09 <= u && u <= 0x0D) || c == ' ' || c == '\u{85}' || c == '\u{A0}' || c == '\u{1680}'
        || (0x2000 <= u && u <= 0x200A) || c == '\u{2028}' || c == '\u{2029}' || c == '\u{202F}'
        || c == '\u{205F}' || c == '\u{3000}'
}

/// The sequence with its leading whitespace removed.
pub open spec fn trim_front(s: Seq<char>) -> Seq<char>
    decreases s.len(),
{
    if s.len() > 0 && is_space_char(s[0]) {
        trim_front(s.drop_first())
    } else {
        s
    }
}

/// The sequence with its trailing whitespace removed.
pub open spec fn trim_back(s: Seq<char>) -> Seq<char>
    decreases s.len(),
{
    if s.len() > 0 && is_space_char(s.last()) {
        trim_back(s.drop_last())
    } else {
        s
    }
}

/// The sequence with both leading and trailing whitespace removed, as
/// `str::trim` leaves it.
pub open spec fn trim_spec(s: Seq<char>) -> Seq<char> {
    trim_back(trim_front(s))
}

/// The views of a sequence of character vectors.
pub open spec fn char_views(ts: Seq<Vec<char>>) -> Seq<Seq<char>> {
    ts.map_values(|t: Vec<char>| t@)
}

/// The maximal non-whitespace prefix of the sequence.
pub open spec fn take_word(s: Seq<char>) -> Seq<char>
    decreases s.len(),
{
    if s.len() > 0 && !is_space_char(s[0]) {
        seq![s[0]] + take_word(s.drop_first())
    } else {
        Seq::empty()
    }
}

/// The sequence with its maximal non-whitespace prefix removed.
pub open spec fn skip_word(s: Seq<char>) -> Seq<char>
    decreases s.len(),
{
    if s.len() > 0 && !is_space_char(s[0]) {
        skip_word(s.drop_first())
    } else {
        s
    }
}

/// `skip_word` never lengthens a sequence.
pub proof fn lemma_skip_word_len(s: Seq<char>)
    ensures
        skip_word(s).len() <= s.len(),
    decreases s.len(),
{
    if s.len() > 0 && !is_space_char(s[0]) {
        lemma_skip_word_len(s.drop_first());
    }
}

/// The whitespace-separated words of the sequence, in order, as
/// `str::split_whitespace` yields them.
pub open spec fn words(s: Seq<char>) -> Seq<Seq<char>>
    decreases s.len(),
    via words_decreases
{
    if s.len() == 0 {
        Seq::empty()
    } else if is_space_char(s[0]) {
        words(s.drop_first())
    } else {
        seq![take_word(s)] + words(skip_word(s))
    }
}

#[via_fn]
proof fn words_decreases(s: Seq<char>) {
    if s.len() > 0 && !is_space_char(s[0]) {
        lemma_skip_word_len(s.drop_first());
    }
}

/// Splits a line into its whitespace-separated words.
pub fn split_words(line: &Vec<char>) -> (toks: Vec<Vec<char>>)
    ensures
        char_views(toks@) == words(line@),
{
    let n = line.len();
    proof {
        assert(line@.subrange(0, n as int) =~= line@);
        assert(char_views(Seq::<Vec<char>>::empty()) =~= Seq::<Seq<char>>::empty());
    }
    let mut toks: Vec<Vec<char>> = Vec::new();
    let mut i: usize = 0;
    while i < n
        invariant
            i <= n == line@.len(),
            words(line@) == char_views(toks@) + words(line@.subrange(i as int, n as int)),
        decreases n - i,
    {
        if is_space(line[i]) {
            proof {
                let tail = line@.subrange(i as int, n as int);
                assert(tail.drop_first() =~= line@.subrange(i + 1, n as int));
            }
            i = i + 1;
        } else {
            let ghost at_word = line@.subrange(i as int, n as int);
            let ghost i0 = i as int;
            let mut word: Vec<char> = Vec::new();
            while i < n && !is_space(line[i])
                invariant
                    i0 <= i <= n == line@.len(),
                    i == i0 ==> i < n && !is_space_char(line@[i as int]),
                    take_word(at_word) == word@ + take_word(line@.subrange(i as int, n as int)),
                    skip_word(at_word) == skip_word(line@.subrange(i as int, n as int)),
                decreases n - i,
            {
                proof {
                    let here = line@.subrange(i as int, n as int);
                    assert(here.drop_first() =~= line@.subrange(i + 1, n as int));
                    assert(take_word(here) == seq![line@[i as int]] + take_word(
                        here.drop_first(),
                    ));
                    assert(word@.push(line@[i as int]) + take_word(here.drop_first()) =~= word@
                        + take_word(here));
                }
                word.push(line[i]);
                i = i + 1;
            }
            proof {
                let rest = line@.subrange(i as int, n as int);
                assert(take_word(rest) =~= Seq::<char>::empty());
                assert(skip_word(rest) == rest);
                assert(take_word(at_word) =~= word@);
                assert(words(at_word) == seq![take_word(at_word)] + words(skip_word(at_word)));
                assert(char_views(toks@.push(word)) =~= char_views(toks@).push(word@));
                assert(char_views(toks@).push(word@) + words(rest) =~= char_views(toks@) + words(
                    at_word,
                ));
            }
            toks.push(word);
        }
    }
    proof {
        assert(words(line@.subrange(n as int, n as int)) =~= Seq::<Seq<char>>::empty());
        assert(char_views(toks@) + words(line@.subrange(n as int, n as int)) =~= char_views(
            toks@,
        ));
    }
    toks
}

/// Copies the characters of `src` into a fresh vector.
pub fn copy_chars(src: &Vec<char>) -> (out: Vec<char>)
    ensures
        out@ == src@,
{
    let mut out: Vec<char> = Vec::new();
    let mut i: usize = 0;
    while i < src.len()
        invariant
            i <= src@.len(),
            out@ == src@.subrange(0, i as int),
        decreases src@.len() - i,
    {
        out.push(src[i]);
        proof {
            assert(out@ =~= src@.subrange(0, i + 1 as int));
        }
        i = i + 1;
    }
    proof {
        assert(out@ =~= src@);
    }
    out
}

/// Removes leading and trailing whitespace from a line of characters.
pub fn trim(line: &Vec<char>) -> (out: Vec<char>)
    ensures
        out@ == trim_spec(line@),
{
    let n = line.len();
    proof {
        assert(line@.subrange(0, n as int) =~= line@);
    }
    let mut start: usize = 0;
    while start < n && is_space(line[start])
        invariant
            start <= n == line@.len(),
            trim_front(line@) == trim_front(line@.subrange(start as int, n as int)),
        decreases n - start,
    {
        proof {
            let tail = line@.subrange(start as int, n as int);
            assert(tail.drop_first() =~= line@.subrange(start + 1, n as int));
        }
        start = start + 1;
    }
    proof {
        assert(trim_front(line@) =~= line@.subrange(start as int, n as int));
    }
    let mut end: usize = n;
    while end > start && is_space(line[end - 1])
        invariant
            start <= end <= n == line@.len(),
            trim_back(line@.subrange(start as int, end as int)) == trim_back(
                trim_front(line@),
            ),
        decreases end,
    {
        proof {
            let part = line@.subrange(start as int, end as int);
            assert(part.last() == line@[end - 1]);
            assert(part.drop_last() =~= line@.subrange(start as int, end - 1));
        }
        end = end - 1;
    }
    proof {
        assert(trim_spec(line@) =~= line@.subrange(start as int, end as int));
    }
    let mut out: Vec<char> = Vec::new();
    let mut i: usize = start;
    while i < end
        invariant
            start <= i <= end <= line@.len(),
            out@ == line@.subrange(start as int, i as int),
        decreases end - i,
    {
        out.push(line[i]);
        proof {
            assert(out@ =~= line@.subrange(start as int, i + 1 as int));
        }
        i = i + 1;
    }
    out
}

} // verus!
