use vstd::prelude::*;

verus! {

/// `String::push` appends the character to the end of the string.
pub assume_specification[ String::push ](s: &mut String, ch: char)
    ensures
        final(s)@ == old(s)@.push(ch),
;

/// `String::pop` removes the last character and returns it, or returns
/// `None` and leaves the string alone where it is empty.
pub assume_specification[ String::pop ](s: &mut String) -> (last: Option<char>)
    ensures
        old(s)@.len() == 0 ==> last.is_none() && final(s)@ == old(s)@,
        old(s)@.len() > 0 ==> last == Some(old(s)@.last()) && final(s)@ == old(s)@.drop_last(),
;

/// `char::is_ascii_digit` holds of the ten characters from '0' to '9'.
pub assume_specification[ char::is_ascii_digit ](c: &char) -> (digit: bool)
    ensures
        digit == ('0' <= *c && *c <= '9'),
;

/// A character that a numeric field takes: a decimal digit or the point.
pub open spec fn is_numeric_char(c: char) -> bool {
    ('0' <= c && c <= '9') || c == '.'
}

/// A text made of decimal digits and points alone.
pub open spec fn is_numeric_text(text: Seq<char>) -> bool {
    forall|i: int| 0 <= i < text.len() ==> is_numeric_char(#[trigger] text[i])
}

/// Whether a numeric field takes the character.
pub fn accepts(c: char) -> (ok: bool)
    ensures
        ok == is_numeric_char(c),
{
    c.is_ascii_digit() || c == '.'
}

} // verus!
