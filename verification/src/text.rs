//! Passing between strings and the characters they hold.

use vstd::prelude::*;
use vstd::std_specs::iter::IteratorSpec;

verus! {

/// Appends one character to a string.
///
/// This is `String::push` of the standard library, which puts the given
/// character at the end of the string and leaves the rest as it was.
#[verifier::external_body]
pub(crate) fn push_char(s: &mut String, ch: char)
    ensures
        final(s)@ == old(s)@.push(ch),
{
    s.push(ch)
}

/// The characters of a string, in order.
pub fn chars_of(text: &str) -> (chars: Vec<char>)
    ensures
        chars@ == text@,
{
    let mut chars: Vec<char> = Vec::new();
    for ch in it: text.chars()
        invariant
            it.seq() == text@,
            chars@ == it.seq().subrange(0, it.index() as int),
    {
        chars.push(ch);
    }
    chars
}

/// The string made of the given characters, in order.
pub fn string_of(chars: &Vec<char>) -> (text: String)
    ensures
        text@ == chars@,
{
    let mut text = String::new();
    let mut i: usize = 0;
    while i < chars.len()
        invariant
            i <= chars@.len(),
            text@ == chars@.subrange(0, i as int),
        decreases chars@.len() - i,
    {
        push_char(&mut text, chars[i]);
        i = i + 1;
    }
    assert(chars@.subrange(0, i as int) =~= chars@);
    text
}

/// Whether the given characters spell the given word.
pub fn spells(chars: &Vec<char>, word: &str) -> (same: bool)
    ensures
        same == (chars@ == word@),
{
    let mut same = true;
    let mut i: usize = 0;
    for ch in it: word.chars()
        invariant
            it.seq() == word@,
            same ==> i == it.index() && i <= chars@.len() && chars@.subrange(0, i as int)
                =~= word@.subrange(0, i as int),
            !same ==> chars@ != word@,
    {
        if same {
            if i < chars.len() && chars[i] == ch {
                assert(chars@.subrange(0, i + 1) =~= chars@.subrange(0, i as int).push(
                    chars@[i as int],
                ));
                assert(word@.subrange(0, i + 1) =~= word@.subrange(0, i as int).push(
                    word@[i as int],
                ));
                i = i + 1;
            } else {
                same = false;
            }
        }
    }
    let whole = same && i == chars.len();
    proof {
        if whole {
            assert(chars@.subrange(0, i as int) =~= chars@);
            assert(word@.subrange(0, i as int) =~= word@);
        }
    }
    whole
}

} // verus!
