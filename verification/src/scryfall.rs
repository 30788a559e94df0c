//! Consuming the bulk reference feed: each downloaded record carries a
//! display name, set name and code, layout, type line, per-finish
//! prices, an optional collector number and an image address. Token
//! and art-series layouts and basic lands are dropped; the rest become
//! reference records grouped by card identity. A record whose name or
//! set does not normalize is skipped, never fatal.
use vstd::prelude::*;

use crate::cardname::name_eq;
use crate::cardname::valid_card_name;
use crate::cardname::CardName;
use crate::collector_number::valid_collector_number;
use crate::collector_number::CollectorNumber;
use crate::currency::Currency;
use crate::grouping::bucket_index;
use crate::grouping::buckets_wf;
use crate::price::Price;
use crate::price::MAX_PRICE_AMOUNT;
use crate::scryfallcard::Prices;
use crate::scryfallcard::ScryfallCard;
use crate::setname::valid_set_name;
use crate::setname::SetName;
use crate::string_manipulators::clean_string;
use crate::string_manipulators::clean_string_spec;
use crate::text::chars_to_string;
use crate::text::starts_with_spec;
use crate::text::str_chars;
use crate::text::trim_spec;

verus! {

/// One record of the bulk feed, already reduced to plain values.
#[derive(Debug, Clone)]
pub struct RawScryfallEntry {
    pub name: String,
    pub set_name: String,
    pub set_code: String,
    pub collector_number: String,
    pub layout: String,
    pub type_line: String,
    /// Non-foil price in euro nano-units, when the feed lists one.
    pub eur: Option<u64>,
    /// Foil price in euro nano-units, when the feed lists one.
    pub eur_foil: Option<u64>,
    pub image_url: String,
}

impl RawScryfallEntry {
    /// The prices fit the library's bound.
    pub open spec fn bounded(&self) -> bool {
        &&& match self.eur {
            Some(n) => n <= MAX_PRICE_AMOUNT,
            None => true,
        }
        &&& match self.eur_foil {
            Some(n) => n <= MAX_PRICE_AMOUNT,
            None => true,
        }
    }
}

/// Whether a feed record enters the reference index at all.
pub open spec fn keep_entry_spec(e: RawScryfallEntry) -> bool {
    &&& e.layout@ != "token"@
    &&& e.layout@ != "art_series"@
    &&& !starts_with_spec(e.type_line@, "Basic Land"@)
    &&& valid_card_name(clean_string_spec(e.name@))
    &&& valid_set_name(clean_string_spec(e.set_name@))
}

/// The collector-number token built from a record: the cleaned set
/// code, a dash, and the cleaned number left-padded with zeros to at
/// least three characters.
pub open spec fn padded_number_spec(n: Seq<char>) -> Seq<char> {
    if n.len() >= 3 {
        n
    } else {
        Seq::new((3 - n.len()) as nat, |i: int| '0') + n
    }
}

pub open spec fn collector_token_spec(e: RawScryfallEntry) -> Seq<char> {
    clean_string_spec(e.set_code@) + "-"@ + padded_number_spec(
        clean_string_spec(e.collector_number@),
    )
}

/// Converts one feed record, or drops it.
pub fn convert_raw_entry(e: &RawScryfallEntry) -> (r: Option<ScryfallCard>)
    requires
        e.bounded(),
    ensures
        r is Some <==> keep_entry_spec(*e),
        r is Some ==> {
            let c = r->0;
            &&& c.name.wf()
            &&& c.name.raw@ == clean_string_spec(e.name@)
            &&& c.set.wf()
            &&& c.set.raw@ == crate::setname::set_raw_spec(clean_string_spec(e.set_name@))
            &&& c.image_url@ == e.image_url@
            &&& c.prices.eur == match e.eur {
                Some(n) => Some(Price { amount: n, currency: Currency::EUR }),
                None => None::<Price>,
            }
            &&& c.prices.eur_foil == match e.eur_foil {
                Some(n) => Some(Price { amount: n, currency: Currency::EUR }),
                None => None::<Price>,
            }
            &&& (valid_collector_number(trim_spec(collector_token_spec(*e)))
                <==> c.collector_number is Some)
            &&& match c.collector_number {
                Some(cn) => cn.wf() && cn.raw_value@ == trim_spec(collector_token_spec(*e)),
                None => true,
            }
            &&& c.wf()
        },
{
    proof {
        reveal_strlit("token");
        reveal_strlit("art_series");
    }
    let layout_chars = str_chars(e.layout.as_str());
    if crate::text::chars_eq_str(&layout_chars, "token") || crate::text::chars_eq_str(
        &layout_chars,
        "art_series",
    ) {
        return None;
    }
    let type_chars = str_chars(e.type_line.as_str());
    let basic = str_chars("Basic Land");
    if crate::text::starts_with_chars(&type_chars, &basic) {
        return None;
    }
    let name = match CardName::new(clean_string(e.name.as_str())) {
        Ok(n) => n,
        Err(_) => {
            return None;
        },
    };
    let set = match SetName::new(clean_string(e.set_name.as_str())) {
        Ok(s) => s,
        Err(_) => {
            return None;
        },
    };
    let code = clean_string(e.set_code.as_str());
    let numv0 = str_chars(clean_string(e.collector_number.as_str()).as_str());
    let mut padded: Vec<char> = Vec::new();
    if numv0.len() < 3 {
        let mut z: usize = 0;
        let zeros: usize = 3 - numv0.len();
        while z < zeros
            invariant
                z <= zeros,
                padded@ =~= Seq::new(z as nat, |i: int| '0'),
            decreases zeros - z,
        {
            padded.push('0');
            assert(padded@ =~= Seq::new((z + 1) as nat, |i: int| '0'));
            z = z + 1;
        }
    }
    let mut k: usize = 0;
    let ghost zeros_part = padded@;
    while k < numv0.len()
        invariant
            k <= numv0@.len(),
            padded@ == zeros_part + numv0@.subrange(0, k as int),
        decreases numv0@.len() - k,
    {
        padded.push(numv0[k]);
        assert(padded@ =~= zeros_part + numv0@.subrange(0, k + 1 as int));
        k = k + 1;
    }
    proof {
        assert(numv0@.subrange(0, numv0@.len() as int) =~= numv0@);
        assert(padded@ =~= padded_number_spec(numv0@)) by {
            if numv0@.len() >= 3 {
                assert(zeros_part =~= Seq::<char>::empty());
                assert(Seq::<char>::empty() + numv0@ =~= numv0@);
            }
        }
    }
    let mut token_v = str_chars(code.as_str());
    token_v.push('-');
    let mut t: usize = 0;
    let ghost head_part = token_v@;
    while t < padded.len()
        invariant
            t <= padded@.len(),
            token_v@ == head_part + padded@.subrange(0, t as int),
        decreases padded@.len() - t,
    {
        token_v.push(padded[t]);
        assert(token_v@ =~= head_part + padded@.subrange(0, t + 1 as int));
        t = t + 1;
    }
    proof {
        assert(padded@.subrange(0, padded@.len() as int) =~= padded@);
        assert(token_v@ =~= collector_token_spec(*e)) by {
            assert(head_part =~= clean_string_spec(e.set_code@).push('-'));
            assert(clean_string_spec(e.set_code@).push('-') =~= clean_string_spec(e.set_code@)
                + "-"@) by {
                reveal_strlit("-");
            }
        }
    }
    let token = chars_to_string(&token_v);
    let collector_number = match CollectorNumber::new(token.as_str()) {
        Ok(c) => Some(c),
        Err(_) => None,
    };
    let eur = match e.eur {
        Some(n) => Some(Price::new(n, Currency::EUR)),
        None => None,
    };
    let eur_foil = match e.eur_foil {
        Some(n) => Some(Price::new(n, Currency::EUR)),
        None => None,
    };
    Some(
        ScryfallCard {
            name,
            set,
            image_url: e.image_url.clone(),
            prices: Prices { eur, eur_foil },
            collector_number,
        },
    )
}

/// How many feed records enter the index.
pub open spec fn kept_count_spec(entries: Seq<RawScryfallEntry>) -> nat
    decreases entries.len(),
{
    if entries.len() == 0 {
        0
    } else {
        (if keep_entry_spec(entries[0]) {
            1nat
        } else {
            0nat
        }) + kept_count_spec(entries.skip(1))
    }
}

proof fn lemma_kept_count_step(entries: Seq<RawScryfallEntry>, i: int)
    requires
        0 <= i < entries.len(),
    ensures
        kept_count_spec(entries.skip(i)) == (if keep_entry_spec(entries[i]) {
            1nat
        } else {
            0nat
        }) + kept_count_spec(entries.skip(i + 1)),
{
    let t = entries.skip(i);
    assert(t[0] == entries[i]);
    assert(t.skip(1) =~= entries.skip(i + 1));
}

/// Every reference record sits in the bucket of its identity.
pub open spec fn scryfall_buckets_match(g: Seq<(CardName, Vec<ScryfallCard>)>) -> bool {
    forall|i: int, l: int|
        0 <= i < g.len() && 0 <= l < (#[trigger] g[i]).1@.len() ==> name_eq(
            &g[i].0,
            &(#[trigger] g[i].1@[l]).name,
        )
}

/// Builds the reference index from the bulk feed: keys pairwise
/// distinct, every kept record in the bucket of its identity, and
/// exactly the kept records present.
pub fn convert_raw_to_domain_cards(entries: &Vec<RawScryfallEntry>) -> (g: Vec<
    (CardName, Vec<ScryfallCard>),
>)
    requires
        forall|i: int| 0 <= i < entries@.len() ==> (#[trigger] entries@[i]).bounded(),
    ensures
        buckets_wf(g@),
        scryfall_buckets_match(g@),
        crate::comparer::buckets_total(g@) == kept_count_spec(entries@),
        crate::comparer::ref_groups_wf(g@),
{
    let mut g: Vec<(CardName, Vec<ScryfallCard>)> = Vec::new();
    proof {
        assert(entries@.skip(0) =~= entries@);
    }
    let mut i: usize = 0;
    while i < entries.len()
        invariant
            forall|j: int| 0 <= j < entries@.len() ==> (#[trigger] entries@[j]).bounded(),
            i <= entries@.len(),
            buckets_wf(g@),
            scryfall_buckets_match(g@),
            crate::comparer::ref_groups_wf(g@),
            crate::comparer::buckets_total(g@) + kept_count_spec(entries@.skip(i as int))
                == kept_count_spec(entries@),
        decreases entries@.len() - i,
    {
        proof {
            lemma_kept_count_step(entries@, i as int);
        }
        match convert_raw_entry(&entries[i]) {
            None => {},
            Some(card) => {
                let ghost g0 = g@;
                let key = card.name.clone();
                proof {
                    crate::grouping::lemma_bucket_index_char(g@, &key);
                }
                crate::grouping::group_insert(&mut g, key, card);
                proof {
                    let bi = bucket_index(g0, &card.name);
                    if bi >= 0 {
                        crate::comparer::lemma_total_update(g0, g@, bi);
                        assert(scryfall_buckets_match(g@) && crate::comparer::ref_groups_wf(g@))
                            by {
                            assert forall|a: int, l: int|
                                0 <= a < g@.len() && 0 <= l < (#[trigger] g@[a]).1@.len() implies (
                            name_eq(&g@[a].0, &(#[trigger] g@[a].1@[l]).name) && g@[a].1@[l].wf())
                                by {
                                if a == bi {
                                    assert(g@[a].0 == g0[a].0);
                                    if l < g0[a].1@.len() {
                                        assert(g@[a].1@[l] == g0[a].1@[l]);
                                        assert(crate::comparer::refs_wf(g0[a].1@));
                                    } else {
                                        assert(g@[a].1@[l] == card);
                                    }
                                } else {
                                    assert(g@[a] == g0[a]);
                                    assert(crate::comparer::refs_wf(g0[a].1@));
                                }
                            }
                        }
                    } else {
                        assert(g@.drop_last() =~= g0);
                        assert(g@ =~= g0.push(g@.last()));
                        crate::comparer::lemma_total_push(g0, g@.last());
                        assert(g@.last().1@.len() == 1);
                        assert(scryfall_buckets_match(g@) && crate::comparer::ref_groups_wf(g@))
                            by {
                            assert forall|a: int, l: int|
                                0 <= a < g@.len() && 0 <= l < (#[trigger] g@[a]).1@.len() implies (
                            name_eq(&g@[a].0, &(#[trigger] g@[a].1@[l]).name) && g@[a].1@[l].wf())
                                by {
                                if a < g0.len() {
                                    assert(g@[a] == g0[a]);
                                    assert(crate::comparer::refs_wf(g0[a].1@));
                                } else {
                                    assert(g@[a].1@[l] == card);
                                }
                            }
                        }
                    }
                }
            },
        }
        i = i + 1;
    }
    proof {
        assert(entries@.skip(entries@.len() as int) =~= Seq::<RawScryfallEntry>::empty());
    }
    g
}

} // verus!
