use vstd::prelude::*;
use vstd::utf8::{char_is_scalar, encode_scalar, encode_utf8, has_width_1_encoding};

verus! {

/// Number of `'\n'` characters in `s`.
pub open spec fn newline_count(s: Seq<char>) -> nat
    decreases s.len(),
{
    if s.len() == 0 {
        0
    } else {
        newline_count(s.drop_last()) + if s.last() == '\n' { 1nat } else { 0nat }
    }
}

/// Number of lines in `s`: every `'\n'` ends one, and a non-empty tail after the
/// last `'\n'` is one more.
pub open spec fn line_count(s: Seq<char>) -> nat {
    newline_count(s) + if s.len() > 0 && s.last() != '\n' { 1nat } else { 0nat }
}

/// Counts the bytes of `input`.
pub fn count_bytes(input: Vec<u8>) -> (r: usize)
    ensures
        r == input@.len(),
{
    input.len()
}

/// Counts the lines of `input`, as `str::lines` splits them.
pub fn count_lines(input: &str) -> (r: usize)
    ensures
        r == line_count(input@),
{
    let n_bytes = input.as_bytes().len();
    proof {
        lemma_chars_le_bytes(input@);
    }
    let mut n: usize = 0;
    let mut ends_in_newline = true;
    for c in it: input.chars()
        invariant
            it.seq() == input@,
            input@.len() <= n_bytes,
            n == newline_count(input@.take(it.index())),
            n + (if ends_in_newline { 0int } else { 1int }) <= it.index(),
            ends_in_newline == (it.index() == 0 || input@[it.index() - 1] == '\n'),
    {
        proof {
            assert(input@.take(it.index() + 1).drop_last() == input@.take(it.index()));
        }
        if c == '\n' {
            n = n + 1;
            ends_in_newline = true;
        } else {
            ends_in_newline = false;
        }
    }
    proof {
        assert(input@.take(input@.len() as int) == input@);
    }
    if ends_in_newline {
        n
    } else {
        n + 1
    }
}

/// Whether `c` has the Unicode `White_Space` property.
pub uninterp spec fn is_white_space(c: char) -> bool;

/// Relies on `char::is_whitespace`: whether `c` has the Unicode `White_Space`
/// property.
#[verifier::external_body]
fn is_whitespace(c: char) -> (r: bool)
    ensures
        r == is_white_space(c),
{
    c.is_whitespace()
}

/// Whether a word starts at position `i` of `s`: a character that is not
/// whitespace, first in `s` or right after whitespace.
pub open spec fn starts_word(s: Seq<char>, i: int) -> bool {
    &&& !is_white_space(s[i])
    &&& (i == 0 || is_white_space(s[i - 1]))
}

/// Number of words in `s`: the maximal runs of characters that are not
/// whitespace, each counted at its first character.
pub open spec fn word_count(s: Seq<char>) -> nat
    decreases s.len(),
{
    if s.len() == 0 {
        0
    } else {
        word_count(s.drop_last()) + if starts_word(s, s.len() - 1) { 1nat } else { 0nat }
    }
}

/// Text made of whitespace alone, the empty text among it, has no words.
pub proof fn lemma_blank_has_no_words(s: Seq<char>)
    requires
        forall|i| 0 <= i < s.len() ==> is_white_space(#[trigger] s[i]),
    ensures
        word_count(s) == 0,
    decreases s.len(),
{
    if s.len() > 0 {
        let t = s.drop_last();
        assert forall|i| 0 <= i < t.len() implies is_white_space(#[trigger] t[i]) by {
            assert(t[i] == s[i]);
        }
        lemma_blank_has_no_words(t);
    }
}

/// Counts the words of `input`, as `str::split_whitespace` splits them.
pub fn count_words(input: &str) -> (r: usize)
    ensures
        r == word_count(input@),
{
    let n_bytes = input.as_bytes().len();
    proof {
        lemma_chars_le_bytes(input@);
    }
    let mut n: usize = 0;
    let mut after_space = true;
    for c in it: input.chars()
        invariant
            it.seq() == input@,
            input@.len() <= n_bytes,
            n == word_count(input@.take(it.index())),
            n <= it.index(),
            after_space == (it.index() == 0 || is_white_space(input@[it.index() - 1])),
    {
        let ghost i = it.index();
        proof {
            let t = input@.take(i + 1);
            assert(t.drop_last() == input@.take(i));
            assert(t[i] == c);
            assert(i > 0 ==> t[i - 1] == input@[i - 1]);
        }
        let space = is_whitespace(c);
        if !space && after_space {
            n = n + 1;
        }
        after_space = space;
    }
    proof {
        assert(input@.take(input@.len() as int) == input@);
    }
    n
}

/// Counts the characters (Unicode scalar values) of `input`.
pub fn count_locale_chars(input: &str) -> (r: usize)
    ensures
        r == input@.len(),
{
    let n_bytes = input.as_bytes().len();
    proof {
        lemma_chars_le_bytes(input@);
    }
    let mut n: usize = 0;
    for _c in it: input.chars()
        invariant
            it.seq() == input@,
            input@.len() <= n_bytes,
            n == it.index(),
    {
        n = n + 1;
    }
    n
}

/// Whether every character of `s` is encoded in a single UTF-8 byte.
pub open spec fn all_single_byte(s: Seq<char>) -> bool {
    forall|i| 0 <= i < s.len() ==> has_width_1_encoding(#[trigger] s[i] as u32)
}

/// There are at least as many UTF-8 bytes as characters, and exactly as many
/// when every character is encoded in one byte, and only then.
pub proof fn lemma_chars_le_bytes(s: Seq<char>)
    ensures
        s.len() <= encode_utf8(s).len(),
        s.len() == encode_utf8(s).len() <==> all_single_byte(s),
    decreases s.len(),
{
    if s.len() > 0 {
        let rest = s.drop_first();
        let c = s[0];
        lemma_chars_le_bytes(rest);
        char_is_scalar(c);
        assert(encode_utf8(s) == encode_scalar(c as u32) + encode_utf8(rest));
        assert(encode_scalar(c as u32).len() == 1 <==> has_width_1_encoding(c as u32));
        if all_single_byte(s) {
            assert forall|i| 0 <= i < rest.len() implies has_width_1_encoding(
                #[trigger] rest[i] as u32,
            ) by {
                assert(rest[i] == s[i + 1]);
            }
        }
        if all_single_byte(rest) && has_width_1_encoding(c as u32) {
            assert forall|i| 0 <= i < s.len() implies has_width_1_encoding(
                #[trigger] s[i] as u32,
            ) by {
                if i > 0 {
                    assert(s[i] == rest[i - 1]);
                }
            }
        }
    }
}

} // verus!
