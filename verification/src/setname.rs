//! Set (edition) names and their normalized, comparable form: quotes
//! dropped from the raw string, then only alphanumerics and whitespace
//! kept, trimmed and lower-cased. Two set names are equal iff their
//! normalized forms are equal.
use vstd::prelude::*;

use crate::text::chars_to_string;
use crate::text::filter_alnum_ws_chars;
use crate::text::filter_alnum_ws_seq;
use crate::text::lower_chars;
use crate::text::lower_seq;
use crate::text::remove_all_chars;
use crate::text::remove_all_spec;
use crate::text::str_chars;
use crate::text::trim_chars;
use crate::text::trim_spec;

verus! {

/// The raw string as stored: single and double quotes removed.
pub open spec fn set_raw_spec(s: Seq<char>) -> Seq<char> {
    remove_all_spec(remove_all_spec(s, "'"@), "\""@)
}

/// The normalized form: alphanumerics and whitespace kept, trimmed,
/// lower-cased.
pub open spec fn clean_set_spec(s: Seq<char>) -> Seq<char> {
    lower_seq(trim_spec(filter_alnum_ws_seq(s)))
}

/// A raw set string is accepted iff both its quote-stripped form and
/// its normalized form are non-empty.
pub open spec fn valid_set_name(s: Seq<char>) -> bool {
    set_raw_spec(s).len() > 0 && clean_set_spec(set_raw_spec(s)).len() > 0
}

#[derive(Debug)]
pub struct SetName {
    /// The source string with quote characters removed.
    pub raw: String,
    /// The normalized, comparable form.
    pub cleaned: String,
}

impl SetName {
    pub open spec fn wf(&self) -> bool {
        &&& self.cleaned@ == clean_set_spec(self.raw@)
        &&& self.raw@.len() > 0
        &&& self.cleaned@.len() > 0
    }

    /// Drops quotes, normalizes, and fails when nothing is left.
    pub fn new(raw: String) -> (r: Result<SetName, String>)
        ensures
            r is Ok <==> valid_set_name(raw@),
            r is Ok ==> r->Ok_0.wf() && r->Ok_0.raw@ == set_raw_spec(raw@),
    {
        let rawv0 = str_chars(raw.as_str());
        let sq = str_chars("'");
        let dq = str_chars("\"");
        proof {
            reveal_strlit("'");
            reveal_strlit("\"");
        }
        let rawv1 = remove_all_chars(&rawv0, &sq);
        let rawv = remove_all_chars(&rawv1, &dq);
        let cleanedv = clean_set_chars(&rawv);
        if rawv.len() == 0 || cleanedv.len() == 0 {
            return Err(String::from_str("Raw and cleaned names cannot be empty"));
        }
        Ok(SetName { raw: chars_to_string(&rawv), cleaned: chars_to_string(&cleanedv) })
    }

    /// The normalized form of an already quote-stripped set string.
    pub fn clean_set_name(name: &str) -> (r: String)
        ensures
            r@ == clean_set_spec(name@),
    {
        let v = str_chars(name);
        let cleaned = clean_set_chars(&v);
        chars_to_string(&cleaned)
    }
}

fn clean_set_chars(v: &Vec<char>) -> (r: Vec<char>)
    ensures
        r@ == clean_set_spec(v@),
{
    let filtered = filter_alnum_ws_chars(v);
    let trimmed = trim_chars(&filtered);
    lower_chars(&trimmed)
}

/// Set-identity equality: equal normalized forms.
pub open spec fn set_eq(a: &SetName, b: &SetName) -> bool {
    a.cleaned@ == b.cleaned@
}

impl PartialEq for SetName {
    fn eq(&self, other: &SetName) -> (r: bool) {
        let a = str_chars(self.cleaned.as_str());
        let b = str_chars(other.cleaned.as_str());
        crate::text::chars_eq_chars(&a, &b)
    }
}

impl Clone for SetName {
    fn clone(&self) -> (r: SetName)
        ensures
            r == *self,
    {
        SetName { raw: self.raw.clone(), cleaned: self.cleaned.clone() }
    }
}

impl vstd::std_specs::cmp::PartialEqSpecImpl for SetName {
    open spec fn obeys_eq_spec() -> bool {
        true
    }

    open spec fn eq_spec(&self, other: &SetName) -> bool {
        set_eq(self, other)
    }
}

} // verus!
