//! Collector numbers: the per-card identifier printed inside a set.
//! A token is accepted when it is a 2-8 digit number, or a 4-12
//! character alphanumeric token that holds a dash (underscores allowed
//! in one of the two dash forms). Comparison is on the lower-cased
//! form.
use vstd::prelude::*;

use crate::text::all_digits;
use crate::text::chars_eq_chars;
use crate::text::chars_to_string;
use crate::text::has_char;
use crate::text::is_alnum_char;
use crate::text::lower_chars;
use crate::text::lower_seq;
use crate::text::str_chars;
use crate::text::trim_chars;
use crate::text::trim_spec;

verus! {

/// A 2-8 character token of digits only.
pub open spec fn only_digits_spec(s: Seq<char>) -> bool {
    2 <= s.len() <= 8 && all_digits(s)
}

/// A 4-12 character token holding a dash, made of alphanumerics and
/// dashes.
pub open spec fn dash_separated_spec(s: Seq<char>) -> bool {
    &&& 4 <= s.len() <= 12
    &&& has_char(s, '-')
    &&& forall|i: int| 0 <= i < s.len() ==> is_alnum_char(#[trigger] s[i]) || s[i] == '-'
}

/// A 4-12 character token holding a dash, made of alphanumerics,
/// dashes and underscores.
pub open spec fn underscore_and_dash_separated_spec(s: Seq<char>) -> bool {
    &&& 4 <= s.len() <= 12
    &&& has_char(s, '-')
    &&& forall|i: int|
        0 <= i < s.len() ==> is_alnum_char(#[trigger] s[i]) || s[i] == '-' || s[i] == '_'
}

/// A trimmed token is a valid collector number iff one of the three
/// accepted shapes fits it.
pub open spec fn valid_collector_number(s: Seq<char>) -> bool {
    only_digits_spec(s) || dash_separated_spec(s) || underscore_and_dash_separated_spec(s)
}

#[derive(Debug)]
pub struct CollectorNumber {
    /// The trimmed token as the source carried it.
    pub raw_value: String,
    /// The lower-cased comparable form.
    pub cleaned_value: String,
}

impl CollectorNumber {
    pub open spec fn wf(&self) -> bool {
        &&& valid_collector_number(self.raw_value@)
        &&& self.cleaned_value@ == lower_seq(self.raw_value@)
    }

    /// Trims and validates a collector-number token.
    pub fn new(collector_number: &str) -> (r: Result<CollectorNumber, String>)
        ensures
            r is Ok <==> valid_collector_number(trim_spec(collector_number@)),
            r is Ok ==> r->Ok_0.wf() && r->Ok_0.raw_value@ == trim_spec(collector_number@),
    {
        let v0 = str_chars(collector_number);
        let v = trim_chars(&v0);
        if is_only_digits(&v) || is_dash_separated_string(&v) || is_underscore_and_dash_separated_string(&v) {
            let lowered = lower_chars(&v);
            Ok(CollectorNumber {
                raw_value: chars_to_string(&v),
                cleaned_value: chars_to_string(&lowered),
            })
        } else {
            Err(
                String::from_str(
                    "Collector number must be 2 to 8 digits long, or 12 characters long with a dash between the first and last character",
                ),
            )
        }
    }
}

fn is_only_digits(v: &Vec<char>) -> (r: bool)
    ensures
        r == only_digits_spec(v@),
{
    if v.len() < 2 || v.len() > 8 {
        return false;
    }
    let mut i: usize = 0;
    while i < v.len()
        invariant
            i <= v@.len(),
            forall|j: int| 0 <= j < i ==> crate::text::is_digit_char(#[trigger] v@[j]),
        decreases v@.len() - i,
    {
        let c = v[i];
        if !('0' <= c && c <= '9') {
            return false;
        }
        i = i + 1;
    }
    true
}

fn is_dash_separated_string(v: &Vec<char>) -> (r: bool)
    ensures
        r == dash_separated_spec(v@),
{
    if v.len() < 4 || v.len() > 12 {
        return false;
    }
    let mut has_dash = false;
    let mut i: usize = 0;
    while i < v.len()
        invariant
            i <= v@.len(),
            has_dash == exists|j: int| 0 <= j < i && v@[j] == '-',
            forall|j: int| 0 <= j < i ==> is_alnum_char(#[trigger] v@[j]) || v@[j] == '-',
        decreases v@.len() - i,
    {
        let c = v[i];
        let alnum = ('a' <= c && c <= 'z') || ('A' <= c && c <= 'Z') || ('0' <= c && c <= '9') || (
        c as u32) > 127;
        if !(alnum || c == '-') {
            return false;
        }
        if c == '-' {
            has_dash = true;
        }
        i = i + 1;
    }
    has_dash
}

fn is_underscore_and_dash_separated_string(v: &Vec<char>) -> (r: bool)
    ensures
        r == underscore_and_dash_separated_spec(v@),
{
    if v.len() < 4 || v.len() > 12 {
        return false;
    }
    let mut has_dash = false;
    let mut i: usize = 0;
    while i < v.len()
        invariant
            i <= v@.len(),
            has_dash == exists|j: int| 0 <= j < i && v@[j] == '-',
            forall|j: int|
                0 <= j < i ==> is_alnum_char(#[trigger] v@[j]) || v@[j] == '-' || v@[j] == '_',
        decreases v@.len() - i,
    {
        let c = v[i];
        let alnum = ('a' <= c && c <= 'z') || ('A' <= c && c <= 'Z') || ('0' <= c && c <= '9') || (
        c as u32) > 127;
        if !(alnum || c == '-' || c == '_') {
            return false;
        }
        if c == '-' {
            has_dash = true;
        }
        i = i + 1;
    }
    has_dash
}

/// Collector numbers are compared on their lower-cased form.
pub open spec fn collector_number_eq(a: &CollectorNumber, b: &CollectorNumber) -> bool {
    a.cleaned_value@ == b.cleaned_value@
}

impl PartialEq for CollectorNumber {
    fn eq(&self, other: &CollectorNumber) -> (r: bool) {
        let a = str_chars(self.cleaned_value.as_str());
        let b = str_chars(other.cleaned_value.as_str());
        chars_eq_chars(&a, &b)
    }
}

impl Clone for CollectorNumber {
    fn clone(&self) -> (r: CollectorNumber)
        ensures
            r == *self,
    {
        CollectorNumber {
            raw_value: self.raw_value.clone(),
            cleaned_value: self.cleaned_value.clone(),
        }
    }
}

impl vstd::std_specs::cmp::PartialEqSpecImpl for CollectorNumber {
    open spec fn obeys_eq_spec() -> bool {
        true
    }

    open spec fn eq_spec(&self, other: &CollectorNumber) -> bool {
        collector_number_eq(self, other)
    }
}

} // verus!
