//! The run's configuration. Feature flags and caps are an explicit
//! value handed to the pipeline stages, not process-global state; the
//! environment is read outside and handed in as plain optional
//! strings.
use vstd::prelude::*;

use crate::text::all_digits;
use crate::text::digits_val;
use crate::text::str_chars;

verus! {

#[derive(Debug, Clone)]
pub struct Config {
    /// Scrape the first storefront.
    pub dragonslair: bool,
    /// Refresh the bulk reference feed.
    pub scryfall: bool,
    /// Scrape the second storefront.
    pub alpha: bool,
    /// The delta threshold of the nice-price filter, in whole kronor.
    pub nice_price_diff: i32,
    /// Whether the live-price fallback may be called at all.
    pub external_price_check: bool,
    /// The exported collection list to read, empty for none.
    pub delver_lense_path: String,
}

pub open spec fn default_config_spec(c: Config) -> bool {
    &&& c.dragonslair == true
    &&& c.scryfall == true
    &&& c.alpha == true
    &&& c.nice_price_diff == 0
    &&& c.external_price_check == true
    &&& c.delver_lense_path@.len() == 0
}

impl Default for Config {
    fn default() -> (r: Config)
        ensures
            default_config_spec(r),
    {
        Config {
            dragonslair: true,
            scryfall: true,
            alpha: true,
            nice_price_diff: 0,
            external_price_check: true,
            delver_lense_path: String::new(),
        }
    }
}

/// The reading of a signed whole number, as the threshold override is
/// parsed; anything else counts as zero.
pub open spec fn parse_i32_spec(s: Seq<char>) -> Option<int> {
    if s.len() >= 2 && s[0] == '-' && all_digits(s.skip(1)) && digits_val(s.skip(1))
        <= 0x80000000 {
        Some(-digits_val(s.skip(1)))
    } else if s.len() >= 2 && s[0] == '+' && all_digits(s.skip(1)) && digits_val(s.skip(1))
        <= 0x7fffffff {
        Some(digits_val(s.skip(1)) as int)
    } else if s.len() >= 1 && all_digits(s) && digits_val(s) <= 0x7fffffff {
        Some(digits_val(s) as int)
    } else {
        None
    }
}

fn parse_i32(s: &str) -> (r: Option<i32>)
    ensures
        match parse_i32_spec(s@) {
            Some(v) => r == Some(v as i32),
            None => r is None,
        },
{
    let v = str_chars(s);
    if v.len() >= 2 && (v[0] == '-' || v[0] == '+') {
        let neg = v[0] == '-';
        let mut rest: Vec<char> = Vec::new();
        let mut i: usize = 1;
        while i < v.len()
            invariant
                1 <= i <= v@.len(),
                rest@ == v@.subrange(1, i as int),
            decreases v@.len() - i,
        {
            rest.push(v[i]);
            assert(rest@ =~= v@.subrange(1, i + 1 as int));
            i = i + 1;
        }
        assert(rest@ =~= v@.skip(1));
        match crate::text::parse_u64_chars(&rest) {
            Some(n) => {
                if neg {
                    if n <= 0x80000000 {
                        Some((-(n as i64)) as i32)
                    } else {
                        None
                    }
                } else {
                    if n <= 0x7fffffff {
                        Some(n as i32)
                    } else {
                        None
                    }
                }
            },
            None => None,
        }
    } else {
        match crate::text::parse_u64_chars(&v) {
            Some(n) => {
                if n <= 0x7fffffff {
                    proof {
                        if v@.len() >= 2 && (v@[0] == '-' || v@[0] == '+') {
                            assert(false);
                        }
                        if v@[0] == '-' || v@[0] == '+' {
                            assert(!crate::text::is_digit_char(v@[0]));
                        }
                    }
                    Some(n as i32)
                } else {
                    None
                }
            },
            None => None,
        }
    }
}

/// Whether a path names a file of the exported-collection format.
pub open spec fn csv_path_spec(s: Seq<char>) -> bool {
    s.len() >= 4 && s.subrange(s.len() - 4, s.len() as int) == ".csv"@
}

fn ends_with_csv(s: &str) -> (r: bool)
    ensures
        r == csv_path_spec(s@),
{
    let v = str_chars(s);
    if v.len() < 4 {
        return false;
    }
    let n = v.len();
    proof {
        reveal_strlit(".csv");
    }
    let r = v[n - 4] == '.' && v[n - 3] == 'c' && v[n - 2] == 's' && v[n - 1] == 'v';
    proof {
        if r {
            assert(v@.subrange(n - 4, n as int) =~= ".csv"@);
        } else {
            if v@.subrange(n - 4, n as int) == ".csv"@ {
                assert(v@.subrange(n - 4, n as int)[0] == v@[n - 4]);
                assert(v@.subrange(n - 4, n as int)[1] == v@[n - 3]);
                assert(v@.subrange(n - 4, n as int)[2] == v@[n - 2]);
                assert(v@.subrange(n - 4, n as int)[3] == v@[n - 1]);
                assert(false);
            }
        }
    }
    r
}

impl Config {
    /// The defaults; environment overrides are applied separately.
    pub fn new() -> (r: Config)
        ensures
            default_config_spec(r),
    {
        Config::default()
    }

    /// Applies the environment overrides, each handed in as the
    /// variable's value when it was set. A flag is on iff its value
    /// is "1"; a threshold that does not parse counts as zero; the
    /// collection path is taken only when it names an existing file
    /// ending in ".csv" (whether it exists is determined outside and
    /// handed in), and a non-empty value that fails the test clears
    /// the path.
    pub fn update_from_env(
        &mut self,
        dragonslair: Option<String>,
        scryfall: Option<String>,
        alpha: Option<String>,
        nice_price_diff: Option<String>,
        external_price_check: Option<String>,
        delver_lense_path: Option<String>,
        delver_path_is_file: bool,
    )
        ensures
            final(self).dragonslair == match dragonslair {
                Some(s) => s@ == "1"@,
                None => old(self).dragonslair,
            },
            final(self).scryfall == match scryfall {
                Some(s) => s@ == "1"@,
                None => old(self).scryfall,
            },
            final(self).alpha == match alpha {
                Some(s) => s@ == "1"@,
                None => old(self).alpha,
            },
            final(self).nice_price_diff == match nice_price_diff {
                Some(s) => match parse_i32_spec(s@) {
                    Some(v) => v as i32,
                    None => 0,
                },
                None => old(self).nice_price_diff,
            },
            final(self).external_price_check == match external_price_check {
                Some(s) => s@ == "1"@,
                None => old(self).external_price_check,
            },
            match delver_lense_path {
                Some(p) => {
                    if delver_path_is_file && csv_path_spec(p@) {
                        final(self).delver_lense_path@ == p@
                    } else if p@.len() > 0 {
                        final(self).delver_lense_path@.len() == 0
                    } else {
                        final(self).delver_lense_path == old(self).delver_lense_path
                    }
                },
                None => final(self).delver_lense_path == old(self).delver_lense_path,
            },
    {
        match dragonslair {
            Some(s) => {
                let v = str_chars(s.as_str());
                self.dragonslair = crate::text::chars_eq_str(&v, "1");
            },
            None => {},
        }
        match scryfall {
            Some(s) => {
                let v = str_chars(s.as_str());
                self.scryfall = crate::text::chars_eq_str(&v, "1");
            },
            None => {},
        }
        match alpha {
            Some(s) => {
                let v = str_chars(s.as_str());
                self.alpha = crate::text::chars_eq_str(&v, "1");
            },
            None => {},
        }
        match nice_price_diff {
            Some(s) => {
                self.nice_price_diff = match parse_i32(s.as_str()) {
                    Some(v) => v,
                    None => 0,
                };
            },
            None => {},
        }
        match external_price_check {
            Some(s) => {
                let v = str_chars(s.as_str());
                self.external_price_check = crate::text::chars_eq_str(&v, "1");
            },
            None => {},
        }
        match delver_lense_path {
            Some(p) => {
                if delver_path_is_file && ends_with_csv(p.as_str()) {
                    self.delver_lense_path = p;
                } else if p.as_str().unicode_len() > 0 {
                    self.delver_lense_path = String::new();
                }
            },
            None => {},
        }
    }
}

} // verus!
