//! Card display names and their normalized, comparable form.
//!
//! A raw vendor or reference display string is normalized by dropping a
//! trailing parenthesized annotation, lower-casing, keeping only
//! letters, digits and spaces, and collapsing repeated whitespace.
//! Construction is refused when nothing is left or when the result is a
//! basic-land name. Two names are the same card when their normalized
//! forms are equal, or, for a double-faced listing (one whose display
//! string holds `//`), when one normalized form contains the other.
use vstd::prelude::*;

use crate::text::chars_eq_chars;
use crate::text::chars_eq_str;
use crate::text::chars_to_string;
use crate::text::collapse_spaces;
use crate::text::contains_chars;
use crate::text::filter_name_chars;
use crate::text::filter_name_seq;
use crate::text::lower_chars;
use crate::text::lower_seq;
use crate::text::seq_contains;
use crate::text::squeeze_chars;
use crate::text::str_chars;
use crate::text::strip_parens_chars;
use crate::text::strip_parens_spec;

verus! {

/// The normalized form of a name that has already lost its
/// parenthesized tail: lower-cased, stripped to letters, digits and
/// spaces, repeated whitespace collapsed.
pub open spec fn clean_name_spec(s: Seq<char>) -> Seq<char> {
    collapse_spaces(filter_name_seq(lower_seq(s)))
}

/// The whole normalization of a raw display string.
pub open spec fn normalize_name_spec(s: Seq<char>) -> Seq<char> {
    clean_name_spec(strip_parens_spec(s))
}

/// The five basic-land names, which never identify a tradable card.
pub open spec fn is_basic_land_spec(s: Seq<char>) -> bool {
    s == "mountain"@ || s == "island"@ || s == "plains"@ || s == "swamp"@ || s == "forest"@
}

/// A raw display string is accepted iff its normalized form is
/// non-empty and is not a basic-land name.
pub open spec fn valid_card_name(s: Seq<char>) -> bool {
    normalize_name_spec(s).len() > 0 && !is_basic_land_spec(normalize_name_spec(s))
}

#[derive(Debug)]
pub struct CardName {
    /// The display string exactly as the source carried it.
    pub raw: String,
    /// The display string with its parenthesized tail dropped.
    pub almost_raw: String,
    /// The normalized, comparable form.
    pub cleaned: String,
    /// Whether the display string names both faces of a card (`//`).
    pub double_faced: bool,
}

impl CardName {
    pub open spec fn wf(&self) -> bool {
        &&& self.almost_raw@ == strip_parens_spec(self.raw@)
        &&& self.cleaned@ == clean_name_spec(self.almost_raw@)
        &&& self.double_faced == seq_contains(self.almost_raw@, "//"@)
        &&& self.cleaned@.len() > 0
        &&& !is_basic_land_spec(self.cleaned@)
    }

    /// Normalizes `raw`; fails on an empty result and on basic lands.
    pub fn new(raw: String) -> (r: Result<CardName, String>)
        ensures
            r is Ok <==> valid_card_name(raw@),
            r is Ok ==> r->Ok_0.wf() && r->Ok_0.raw@ == raw@,
    {
        let rawv = str_chars(raw.as_str());
        let almostv = strip_parens_chars(&rawv);
        let cleanedv = clean_name_chars(&almostv);
        if cleanedv.len() == 0 {
            return Err(String::from_str("Raw and cleaned names cannot be empty"));
        }
        if is_basic_land_chars(&cleanedv) {
            return Err(String::from_str("Card cannot be a basic land"));
        }
        let slashes = str_chars("//");
        let double_faced = contains_chars(&almostv, &slashes);
        Ok(CardName {
            raw,
            almost_raw: chars_to_string(&almostv),
            cleaned: chars_to_string(&cleanedv),
            double_faced,
        })
    }
}

/// The executable form of `clean_name_spec`.
fn clean_name_chars(v: &Vec<char>) -> (r: Vec<char>)
    ensures
        r@ == clean_name_spec(v@),
{
    let lowered = lower_chars(v);
    let filtered = filter_name_chars(&lowered);
    squeeze_chars(&filtered)
}

fn is_basic_land_chars(v: &Vec<char>) -> (r: bool)
    ensures
        r == is_basic_land_spec(v@),
{
    chars_eq_str(v, "mountain") || chars_eq_str(v, "island") || chars_eq_str(v, "plains")
        || chars_eq_str(v, "swamp") || chars_eq_str(v, "forest")
}

/// Card-identity equality: equal normalized forms, or containment of
/// one normalized form in the other when either listing is
/// double-faced.
pub open spec fn name_eq(a: &CardName, b: &CardName) -> bool {
    a.cleaned@ == b.cleaned@ || ((a.double_faced || b.double_faced) && (seq_contains(
        a.cleaned@,
        b.cleaned@,
    ) || seq_contains(b.cleaned@, a.cleaned@)))
}

impl PartialEq for CardName {
    fn eq(&self, other: &CardName) -> (r: bool) {
        let a = str_chars(self.cleaned.as_str());
        let b = str_chars(other.cleaned.as_str());
        if chars_eq_chars(&a, &b) {
            true
        } else if self.double_faced || other.double_faced {
            contains_chars(&a, &b) || contains_chars(&b, &a)
        } else {
            false
        }
    }
}

impl Clone for CardName {
    fn clone(&self) -> (r: CardName)
        ensures
            r == *self,
    {
        CardName {
            raw: self.raw.clone(),
            almost_raw: self.almost_raw.clone(),
            cleaned: self.cleaned.clone(),
            double_faced: self.double_faced,
        }
    }
}

impl vstd::std_specs::cmp::PartialEqSpecImpl for CardName {
    open spec fn obeys_eq_spec() -> bool {
        true
    }

    open spec fn eq_spec(&self, other: &CardName) -> bool {
        name_eq(self, other)
    }
}

/// Normalization is idempotent: running the whole pipeline on an
/// already-normalized form gives it back unchanged.
pub proof fn lemma_normalize_idempotent(s: Seq<char>)
    ensures
        normalize_name_spec(normalize_name_spec(s)) == normalize_name_spec(s),
{
    let t = normalize_name_spec(s);
    let u = strip_parens_spec(s);
    let lowered = lower_seq(u);
    let filtered = filter_name_seq(lowered);
    lemma_clean_chars_are_name_chars(u);
    // No character of `t` is `(`, so stripping parentheses is the identity.
    assert(!crate::text::has_char(t, '(')) by {
        if crate::text::has_char(t, '(') {
            let i = choose|i: int| 0 <= i < t.len() && t[i] == '(';
            assert(crate::text::is_name_char(t[i]));
        }
    }
    assert(strip_parens_spec(t) == t);
    // No character of `t` is upper-case, so lower-casing it is the identity.
    lemma_clean_chars_not_upper(u);
    assert(lower_seq(t) =~= t) by {
        assert(forall|i: int| 0 <= i < t.len() ==> crate::text::lower_char(#[trigger] t[i]) == t[i]);
    }
    // Every character of `t` is a name character, so filtering is the identity.
    crate::text::lemma_filter_fixed(t, |c: char| crate::text::is_name_char(c));
    // `t` is already space-collapsed.
    crate::text::lemma_collapse_idempotent(filtered);
}

/// Every character of a cleaned name is a letter, a digit or a space.
proof fn lemma_clean_chars_are_name_chars(u: Seq<char>)
    ensures
        forall|i: int| 0 <= i < clean_name_spec(u).len() ==> crate::text::is_name_char(
            #[trigger] clean_name_spec(u)[i],
        ),
{
    let lowered = lower_seq(u);
    let filtered = filter_name_seq(lowered);
    let squeezed = crate::text::squeeze_spec(filtered);
    let t = clean_name_spec(u);
    crate::text::lemma_squeeze_membership(filtered);
    assert forall|i: int| 0 <= i < t.len() implies crate::text::is_name_char(#[trigger] t[i]) by {
        assert(squeezed.contains(t[i])) by {
            assert(squeezed[i] == t[i]);
        }
        if t[i] != ' ' {
            assert(filtered.contains(t[i]));
            let j = choose|j: int| 0 <= j < filtered.len() && filtered[j] == t[i];
            lowered.lemma_filter_pred(|c: char| crate::text::is_name_char(c), j);
        }
    }
}

/// No character of a cleaned name is an upper-case ASCII letter.
proof fn lemma_clean_chars_not_upper(u: Seq<char>)
    ensures
        forall|i: int| 0 <= i < clean_name_spec(u).len() ==> !crate::text::is_upper_char(
            #[trigger] clean_name_spec(u)[i],
        ),
{
    let lowered = lower_seq(u);
    let filtered = filter_name_seq(lowered);
    let squeezed = crate::text::squeeze_spec(filtered);
    let t = clean_name_spec(u);
    crate::text::lemma_squeeze_membership(filtered);
    assert(forall|k: int| 0 <= k < lowered.len() ==> !crate::text::is_upper_char(
        #[trigger] lowered[k],
    ));
    assert forall|i: int| 0 <= i < t.len() implies !crate::text::is_upper_char(
        #[trigger] t[i],
    ) by {
        assert(squeezed.contains(t[i])) by {
            assert(squeezed[i] == t[i]);
        }
        if t[i] != ' ' {
            assert(filtered.contains(t[i]));
            lowered.lemma_filter_contains_rev(|c: char| crate::text::is_name_char(c), t[i]);
            let k = choose|k: int| 0 <= k < lowered.len() && lowered[k] == t[i];
        }
    }
}

/// Cleaning is the identity on a name that is already in cleaned
/// shape: no upper-case letters, only letters, digits and spaces,
/// no repeated or leading space, no trailing space.
pub proof fn lemma_clean_plain(s: Seq<char>)
    requires
        forall|i: int|
            0 <= i < s.len() ==> crate::text::is_name_char(#[trigger] s[i])
                && !crate::text::is_upper_char(s[i]),
        crate::text::space_collapsed(s),
        s.len() > 0 ==> s.last() != ' ',
    ensures
        clean_name_spec(s) == s,
{
    assert(lower_seq(s) =~= s) by {
        assert(forall|i: int|
            0 <= i < s.len() ==> crate::text::lower_char(#[trigger] s[i]) == s[i]);
    }
    crate::text::lemma_filter_fixed(s, |c: char| crate::text::is_name_char(c));
    crate::text::lemma_squeeze_fixed(s);
    assert(crate::text::drop_trailing_space(s) == s);
}

} // verus!
