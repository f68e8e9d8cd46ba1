//! What the path helper is asked and what is made of its answer.

use vstd::prelude::*;
use vstd::string::*;
use vstd::utf8::{decode_utf8, valid_utf8};
use crate::error::SetupError;
use crate::options::texts;
use crate::text::chars_of;

verus! {

/// Whether `char::is_whitespace` holds of a character: the Unicode property
/// White_Space.
pub uninterp spec fn white_space(c: char) -> bool;

/// `char::is_whitespace`: the result is named.
#[verifier::external_body]
fn is_white_space(c: char) -> (yes: bool)
    ensures
        yes == white_space(c),
{
    c.is_whitespace()
}

/// `String::from_utf8`: the text that the bytes encode, if they are valid
/// UTF-8, and nothing if they are not.
#[verifier::external_body]
fn decode_text(bytes: Vec<u8>) -> (decoded: Option<String>)
    ensures
        decoded is Some <==> valid_utf8(bytes@),
        decoded matches Some(s) ==> s@ == decode_utf8(bytes@),
{
    String::from_utf8(bytes).ok()
}

/// A text without the white space at its start.
pub open spec fn strip_front(s: Seq<char>) -> Seq<char>
    decreases s.len(),
{
    if s.len() > 0 && white_space(s[0]) {
        strip_front(s.drop_first())
    } else {
        s
    }
}

/// A text without the white space at its end.
pub open spec fn strip_back(s: Seq<char>) -> Seq<char>
    decreases s.len(),
{
    if s.len() > 0 && white_space(s.last()) {
        strip_back(s.drop_last())
    } else {
        s
    }
}

/// A text without the white space around it.
pub open spec fn trimmed(s: Seq<char>) -> Seq<char> {
    strip_back(strip_front(s))
}

/// What the path helper's output stands for: the text that the bytes encode,
/// without the white space around it; a fault where they encode none.
pub open spec fn normalized(output: Seq<u8>) -> Result<Seq<char>, SetupError> {
    if valid_utf8(output) {
        Ok(trimmed(decode_utf8(output)))
    } else {
        Err(SetupError::HelperOutputNotText)
    }
}

/// Removes the white space around a text.
pub fn trim(s: &str) -> (out: String)
    ensures
        out@ == trimmed(s@),
{
    let chars: Vec<char> = chars_of(s);
    let n: usize = chars.len();
    let mut i: usize = 0;
    assert(s@.subrange(0, n as int) =~= s@);
    while i < n && is_white_space(chars[i])
        invariant
            chars@ == s@,
            n == s@.len(),
            i <= n,
            strip_front(s@) == strip_front(s@.subrange(i as int, n as int)),
        decreases n - i,
    {
        assert(s@.subrange(i as int, n as int).drop_first() =~= s@.subrange(i + 1, n as int));
        i += 1;
    }
    assert(strip_front(s@) == s@.subrange(i as int, n as int));
    let mut j: usize = n;
    while j > i && is_white_space(chars[j - 1])
        invariant
            chars@ == s@,
            n == s@.len(),
            i <= j <= n,
            trimmed(s@) == strip_back(s@.subrange(i as int, j as int)),
        decreases j - i,
    {
        assert(s@.subrange(i as int, j as int).drop_last() =~= s@.subrange(i as int, j - 1));
        j -= 1;
    }
    assert(trimmed(s@) == s@.subrange(i as int, j as int));
    String::from_str(s.substring_char(i, j))
}

/// The arguments that the path helper is started with for one path: `-u`,
/// then the path.
pub fn helper_arguments(path: &str) -> (arguments: Vec<String>)
    ensures
        texts(arguments@) == seq!["-u"@, path@],
{
    let mut arguments: Vec<String> = Vec::new();
    arguments.push(String::from_str("-u"));
    arguments.push(String::from_str(path));
    assert(texts(arguments@) =~= seq!["-u"@, path@]);
    arguments
}

/// The path in the form that rsync reads, from what the path helper wrote on
/// its standard output for it.
pub fn path_win_to_unix(output: Vec<u8>) -> (path: Result<String, SetupError>)
    ensures
        normalized(output@) matches Ok(text) ==> path matches Ok(p) && p@ == text,
        normalized(output@) is Err ==> path == Err::<String, SetupError>(
            SetupError::HelperOutputNotText,
        ),
{
    match decode_text(output) {
        Some(text) => Ok(trim(text.as_str())),
        None => Err(SetupError::HelperOutputNotText),
    }
}

} // verus!
