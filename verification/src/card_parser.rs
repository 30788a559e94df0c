//! Decisions of the storefront listing parser that do not touch the
//! markup itself: reading a price cell, and recognizing the listing
//! annotations that mark a card as foil or as unwanted.
use vstd::prelude::*;

use crate::text::all_digits;
use crate::text::contains_chars;
use crate::text::digits_val;
use crate::text::lower_chars;
use crate::text::lower_seq;
use crate::text::remove_all_chars;
use crate::text::remove_all_spec;
use crate::text::seq_contains;
use crate::text::str_chars;
use crate::text::trim_chars;
use crate::text::trim_spec;

verus! {

/// Why a price cell yields no price.
#[derive(Debug, PartialEq, Eq, Structural, Clone, Copy)]
pub enum PriceError {
    /// The cell holds only a dash: the item has no price at all.
    NoPriceAvailable,
    /// The cell does not read as a whole non-negative number.
    NotANumber,
}

/// The digits left of a price cell once the stock words and the
/// currency mark are dropped: "Slut, ", "Fullt, " and "kr" removed,
/// then trimmed.
pub open spec fn price_digits_spec(s: Seq<char>) -> Seq<char> {
    trim_spec(
        remove_all_spec(remove_all_spec(remove_all_spec(s, "Slut, "@), "Fullt, "@), "kr"@),
    )
}

/// A price cell parses iff it is not the bare dash and its digit part
/// is a non-empty number no larger than `i32::MAX`.
pub open spec fn price_ok_spec(s: Seq<char>) -> bool {
    trim_spec(s) != "-"@ && price_digits_spec(s).len() > 0 && all_digits(price_digits_spec(s))
        && digits_val(price_digits_spec(s)) <= i32::MAX
}

/// Reads a storefront price cell ("Slut, 100 kr", "25 kr", "-") as
/// whole kronor.
pub fn parse_price(price_str: &str) -> (r: Result<i32, PriceError>)
    ensures
        r is Ok <==> price_ok_spec(price_str@),
        r is Ok ==> r->Ok_0 == digits_val(price_digits_spec(price_str@)),
        r == Err::<i32, PriceError>(PriceError::NoPriceAvailable) <==> trim_spec(price_str@)
            == "-"@,
{
    let v = str_chars(price_str);
    let trimmed = trim_chars(&v);
    let dash = str_chars("-");
    if crate::text::chars_eq_chars(&trimmed, &dash) {
        return Err(PriceError::NoPriceAvailable);
    }
    let p1 = str_chars("Slut, ");
    let p2 = str_chars("Fullt, ");
    let p3 = str_chars("kr");
    proof {
        reveal_strlit("Slut, ");
        reveal_strlit("Fullt, ");
        reveal_strlit("kr");
    }
    let w1 = remove_all_chars(&v, &p1);
    let w2 = remove_all_chars(&w1, &p2);
    let w3 = remove_all_chars(&w2, &p3);
    let digits = trim_chars(&w3);
    match crate::text::parse_u64_chars(&digits) {
        Some(n) => {
            if n <= 0x7fffffff {
                Ok(n as i32)
            } else {
                Err(PriceError::NotANumber)
            }
        },
        None => Err(PriceError::NotANumber),
    }
}

/// Whether a listing name carries the needle, ignoring ASCII case.
pub fn contains_ci(haystack: &str, needle: &str) -> (r: bool)
    ensures
        r == seq_contains(lower_seq(haystack@), lower_seq(needle@)),
{
    let h0 = str_chars(haystack);
    let h = lower_chars(&h0);
    let n0 = str_chars(needle);
    let n = lower_chars(&n0);
    contains_chars(&h, &n)
}

/// Whether a listing name marks a foil finish: any of the three foil
/// annotations, ignoring case.
pub fn is_foil_name(name: &str) -> (r: bool)
    ensures
        r == (seq_contains(lower_seq(name@), lower_seq("(Foil)"@)) || seq_contains(
            lower_seq(name@),
            lower_seq("(Etched Foil)"@),
        ) || seq_contains(lower_seq(name@), lower_seq("(Foil Etched)"@))),
{
    contains_ci(name, "(Foil)") || contains_ci(name, "(Etched Foil)") || contains_ci(
        name,
        "(Foil Etched)",
    )
}

/// Whether a listing is skipped outright: damaged or played copies and
/// token listings, ignoring case.
pub fn is_unwanted_name(name: &str) -> (r: bool)
    ensures
        r == (seq_contains(lower_seq(name@), lower_seq("(skadad)"@)) || seq_contains(
            lower_seq(name@),
            lower_seq("( Skadad )"@),
        ) || seq_contains(lower_seq(name@), lower_seq("(Spelad)"@)) || seq_contains(
            lower_seq(name@),
            lower_seq("[Token]"@),
        )),
{
    contains_ci(name, "(skadad)") || contains_ci(name, "( Skadad )") || contains_ci(
        name,
        "(Spelad)",
    ) || contains_ci(name, "[Token]")
}

} // verus!
