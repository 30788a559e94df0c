//! The plain string cleaners shared by the adapters.
use vstd::prelude::*;

use crate::text::chars_to_string;
use crate::text::filter_alnum_ws_chars;
use crate::text::filter_alnum_ws_seq;
use crate::text::filter_name_chars;
use crate::text::filter_name_seq;
use crate::text::lower_chars;
use crate::text::lower_seq;
use crate::text::str_chars;
use crate::text::trim_chars;
use crate::text::trim_spec;

verus! {

/// What `clean_string` computes.
pub open spec fn clean_string_spec(s: Seq<char>) -> Seq<char> {
    trim_spec(filter_alnum_ws_seq(s))
}

/// Keeps alphanumerics and whitespace, trimmed.
pub fn clean_string(input: &str) -> (r: String)
    ensures
        r@ == clean_string_spec(input@),
{
    let v = str_chars(input);
    let filtered = filter_alnum_ws_chars(&v);
    let trimmed = trim_chars(&filtered);
    chars_to_string(&trimmed)
}

/// What `clean_word` computes.
pub open spec fn clean_word_spec(s: Seq<char>) -> Seq<char> {
    trim_spec(filter_name_seq(lower_seq(s)))
}

/// Lower-cases, keeps letters, digits and spaces, trims.
pub fn clean_word(word: &str) -> (r: String)
    ensures
        r@ == clean_word_spec(word@),
{
    let v = str_chars(word);
    let lowered = lower_chars(&v);
    let filtered = filter_name_chars(&lowered);
    let trimmed = trim_chars(&filtered);
    chars_to_string(&trimmed)
}

} // verus!
