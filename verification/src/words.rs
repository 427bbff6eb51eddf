//! The first whitespace-delimited token of a text payload, and the
//! recognizer for list-marker words.  A re-emitted text fragment whose
//! first token is a list-marker word could be misparsed as a list item,
//! so the printer asks before emitting it unguarded.

use vstd::prelude::*;
use vstd::string::StrSliceExecFns;

verus! {

/// Whether `c` carries the Unicode white-space property; this is the
/// notion of whitespace on which the first token of a text payload ends.
pub open spec fn is_unicode_whitespace(c: char) -> bool {
    let u = c as u32;
    ||| (0x9 <= u && u <= 0xd)
    ||| u == 0x20
    ||| u == 0x85
    ||| u == 0xa0
    ||| u == 0x1680
    ||| (0x2000 <= u && u <= 0x200a)
    ||| u == 0x2028
    ||| u == 0x2029
    ||| u == 0x202f
    ||| u == 0x205f
    ||| u == 0x3000
}

fn is_whitespace_char(c: char) -> (r: bool)
    ensures
        r == is_unicode_whitespace(c),
{
    let u: u32 = c as u32;
    (0x9 <= u && u <= 0xd) || u == 0x20 || u == 0x85 || u == 0xa0 || u == 0x1680 || (0x2000 <= u
        && u <= 0x200a) || u == 0x2028 || u == 0x2029 || u == 0x202f || u == 0x205f || u == 0x3000
}

/// Whether `c` is an ASCII decimal digit.
pub open spec fn is_ascii_digit_char(c: char) -> bool {
    0x30 <= c as u32 && c as u32 <= 0x39
}

fn is_digit_char(c: char) -> (r: bool)
    ensures
        r == is_ascii_digit_char(c),
{
    let u: u32 = c as u32;
    0x30 <= u && u <= 0x39
}

/// The prefix of `s` up to but not including its first whitespace
/// character; all of `s` when it holds no whitespace.
pub open spec fn first_word(s: Seq<char>) -> Seq<char>
    decreases s.len(),
{
    if s.len() == 0 {
        Seq::empty()
    } else if is_unicode_whitespace(s[0]) {
        Seq::empty()
    } else {
        seq![s[0]] + first_word(s.drop_first())
    }
}

proof fn lemma_first_word_take(s: Seq<char>, i: int)
    requires
        0 <= i <= s.len(),
        forall|j: int| 0 <= j < i ==> !is_unicode_whitespace(s[j]),
        i < s.len() ==> is_unicode_whitespace(s[i]),
    ensures
        first_word(s) == s.take(i),
    decreases s.len(),
{
    if s.len() == 0 || i == 0 {
        assert(first_word(s) =~= s.take(i));
    } else {
        lemma_first_word_take(s.drop_first(), i - 1);
        assert(s.take(i) =~= seq![s[0]] + s.drop_first().take(i - 1));
    }
}

/// The first whitespace-delimited token of `text`, as a borrowed slice.
pub fn first_word_of<'a>(text: &'a str) -> (w: &'a str)
    ensures
        w@ == first_word(text@),
{
    let n = text.unicode_len();
    let mut i: usize = 0;
    while i < n
        invariant
            0 <= i <= n,
            n == text@.len(),
            forall|j: int| 0 <= j < i ==> !is_unicode_whitespace(text@[j]),
        decreases n - i,
    {
        let c = text.get_char(i);
        if is_whitespace_char(c) {
            proof {
                lemma_first_word_take(text@, i as int);
            }
            return text.substring_char(0, i);
        }
        i = i + 1;
    }
    proof {
        lemma_first_word_take(text@, n as int);
    }
    text.substring_char(0, n)
}

/// A single-character list marker: `-`, `*` or `+`.
pub open spec fn is_single_marker(w: Seq<char>) -> bool {
    w.len() == 1 && (w[0] == '-' || w[0] == '*' || w[0] == '+')
}

/// A numbered list marker: one or more ASCII digits followed by `.` or
/// `)`.
pub open spec fn is_numbered_marker(w: Seq<char>) -> bool {
    &&& w.len() >= 2
    &&& (w[w.len() - 1] == '.' || w[w.len() - 1] == ')')
    &&& forall|j: int| 0 <= j < w.len() - 1 ==> is_ascii_digit_char(w[j])
}

/// Whether `w` is a recognized list-marker word.
pub open spec fn is_list_word_spec(w: Seq<char>) -> bool {
    is_single_marker(w) || is_numbered_marker(w)
}

/// Whether `word` is a recognized list-marker word: `-`, `*`, `+`, or
/// one or more ASCII digits followed by `.` or `)`.
pub fn is_list_word(word: &str) -> (r: bool)
    ensures
        r == is_list_word_spec(word@),
{
    let n = word.unicode_len();
    if n == 0 {
        return false;
    }
    if n == 1 {
        let c = word.get_char(0);
        return c == '-' || c == '*' || c == '+';
    }
    let last = word.get_char(n - 1);
    if !(last == '.' || last == ')') {
        return false;
    }
    let mut i: usize = 0;
    while i < n - 1
        invariant
            0 <= i <= n - 1,
            n == word@.len(),
            n >= 2,
            forall|j: int| 0 <= j < i ==> is_ascii_digit_char(word@[j]),
        decreases n - 1 - i,
    {
        let c = word.get_char(i);
        if !is_digit_char(c) {
            return false;
        }
        i = i + 1;
    }
    true
}

/// Law: empty text has no first word, and the empty word is not a
/// recognized list-marker word.
pub proof fn lemma_empty_text_no_list_word()
    ensures
        first_word(Seq::<char>::empty()) == Seq::<char>::empty(),
        !is_list_word_spec(first_word(Seq::<char>::empty())),
{
}

} // verus!
