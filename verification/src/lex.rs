//! Tokenizing an input line.
//!
//! A command line is the sequence of its maximal runs of non-whitespace
//! characters, in order; whitespace only separates. [`spec_split_ws`] is
//! the model and [`split_line`] computes it.

use vstd::prelude::*;

verus! {

/// The whitespace characters that separate tokens.
pub open spec fn is_ws(c: char) -> bool {
    c == ' ' || c == '\t' || c == '\n' || c == '\u{0b}' || c == '\u{0c}' || c == '\r'
        || c == '\u{85}' || c == '\u{a0}' || c == '\u{1680}' || c == '\u{2000}' || c == '\u{2001}'
        || c == '\u{2002}' || c == '\u{2003}' || c == '\u{2004}' || c == '\u{2005}'
        || c == '\u{2006}' || c == '\u{2007}' || c == '\u{2008}' || c == '\u{2009}'
        || c == '\u{200a}' || c == '\u{2028}' || c == '\u{2029}' || c == '\u{202f}'
        || c == '\u{205f}' || c == '\u{3000}'
}

fn is_ws_char(c: char) -> (r: bool)
    ensures
        r == is_ws(c),
{
    c == ' ' || c == '\t' || c == '\n' || c == '\u{0b}' || c == '\u{0c}' || c == '\r'
        || c == '\u{85}' || c == '\u{a0}' || c == '\u{1680}' || c == '\u{2000}' || c == '\u{2001}'
        || c == '\u{2002}' || c == '\u{2003}' || c == '\u{2004}' || c == '\u{2005}'
        || c == '\u{2006}' || c == '\u{2007}' || c == '\u{2008}' || c == '\u{2009}'
        || c == '\u{200a}' || c == '\u{2028}' || c == '\u{2029}' || c == '\u{202f}'
        || c == '\u{205f}' || c == '\u{3000}'
}

/// The length of the leading run of non-whitespace characters.
pub open spec fn word_len(s: Seq<char>) -> nat
    decreases s.len(),
{
    if s.len() == 0 || is_ws(s[0]) {
        0
    } else {
        1 + word_len(s.drop_first())
    }
}

proof fn lemma_word_len_le(s: Seq<char>)
    ensures
        word_len(s) <= s.len(),
    decreases s.len(),
{
    if s.len() > 0 && !is_ws(s[0]) {
        lemma_word_len_le(s.drop_first());
    }
}

/// The leading word ends at the first index that is whitespace or the end.
proof fn lemma_word_len_at(s: Seq<char>, i: int)
    requires
        0 <= i <= s.len(),
        forall|j: int| 0 <= j < i ==> !is_ws(s[j]),
        i == s.len() || is_ws(s[i]),
    ensures
        word_len(s) == i,
    decreases i,
{
    if i == 0 {
    } else {
        let t = s.drop_first();
        assert(forall|j: int| 0 <= j < i - 1 ==> !is_ws(t[j]));
        if i < s.len() {
            assert(t[i - 1] == s[i]);
        }
        lemma_word_len_at(t, i - 1);
    }
}

/// The tokens of a line: its maximal non-whitespace runs, in order.
pub open spec fn spec_split_ws(s: Seq<char>) -> Seq<Seq<char>>
    decreases s.len(),
    via spec_split_ws_decreases
{
    if s.len() == 0 {
        Seq::empty()
    } else if is_ws(s[0]) {
        spec_split_ws(s.drop_first())
    } else {
        let w = word_len(s) as int;
        seq![s.subrange(0, w)] + spec_split_ws(s.subrange(w, s.len() as int))
    }
}

#[via_fn]
proof fn spec_split_ws_decreases(s: Seq<char>) {
    lemma_word_len_le(s);
}

/// Splits one input line into its whitespace-separated tokens.
pub fn split_line(line: &str) -> (r: Vec<String>)
    ensures
        r.deep_view() == spec_split_ws(line@),
    decreases line@.len(),
{
    let n = line.unicode_len();
    if n == 0 {
        let out: Vec<String> = Vec::new();
        proof {
            assert(out.deep_view() =~= spec_split_ws(line@));
        }
        return out;
    }
    if is_ws_char(line.get_char(0)) {
        let rest = line.substring_char(1, n);
        proof {
            assert(rest@ =~= line@.drop_first());
        }
        let out = split_line(rest);
        proof {
            assert(out.deep_view() == spec_split_ws(line@));
        }
        return out;
    }
    let w = word_end(line, 0);
    proof {
        lemma_word_len_at(line@, w as int);
    }
    let word = line.substring_char(0, w);
    let rest = line.substring_char(w, n);
    proof {
        assert(rest@ =~= line@.subrange(w as int, n as int));
    }
    let mut out = split_line(rest);
    let word_string = String::from_str(word);
    let ghost tail_strings = out@;
    let ghost tail_deep = out.deep_view();
    out.insert(0, word_string);
    proof {
        let model = spec_split_ws(line@);
        assert(model == seq![line@.subrange(0, w as int)] + spec_split_ws(
            line@.subrange(w as int, n as int),
        ));
        assert(out@ == tail_strings.insert(0, word_string));
        assert forall|i: int| 0 <= i < out.deep_view().len() implies out.deep_view()[i]
            == model[i] by {
            if i == 0 {
                assert(out@[0] == word_string);
            } else {
                assert(out@[i] == tail_strings[i - 1]);
                assert(tail_deep[i - 1] == tail_strings[i - 1].deep_view());
            }
        }
        assert(out.deep_view() =~= model);
    }
    out
}

/// The index of the first whitespace character at or after `i`, or the end.
fn word_end(line: &str, i: usize) -> (w: usize)
    requires
        i <= line@.len(),
        forall|j: int| 0 <= j < i ==> !is_ws(line@[j]),
    ensures
        i <= w <= line@.len(),
        forall|j: int| 0 <= j < w ==> !is_ws(line@[j]),
        w == line@.len() || is_ws(line@[w as int]),
    decreases line@.len() - i,
{
    let n = line.unicode_len();
    if i == n {
        i
    } else if is_ws_char(line.get_char(i)) {
        i
    } else {
        word_end(line, i + 1)
    }
}

} // verus!
