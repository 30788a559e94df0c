//! The live-price fallback: when the bulk reference feed has no price
//! for a matched card, a remote search resolves the card's name to a
//! provider slug and a second call returns prices per set. The results
//! are memoized per card identity for the life of the process, so a
//! later lookup for another set of the same identity costs no further
//! network call. The network calls themselves run outside this module:
//! it decides when one is needed, builds the request paths, and folds
//! the fetched list into the cache.
//!
//! The cache check and the cache update are separate steps here, as
//! they are around the network round trip; two concurrent lookups for
//! the same unseen identity can therefore both miss and both fetch.
//! That known duplication of work is kept; the later of the two stores
//! simply overwrites the earlier with the same list.
use vstd::prelude::*;

use crate::cardname::CardName;
use crate::grouping::bucket_index;
use crate::grouping::lemma_bucket_index_char;
use crate::price::Price;
use crate::setname::set_eq;
use crate::setname::SetName;

verus! {

/// One per-set price of the live provider.
#[derive(Debug)]
pub struct MtgStocksCard {
    pub set: SetName,
    pub price: Price,
}

impl Clone for MtgStocksCard {
    fn clone(&self) -> (r: MtgStocksCard)
        ensures
            r == *self,
    {
        MtgStocksCard { set: self.set.clone(), price: self.price }
    }
}

/// Index of the first entry for the given set, or -1.
pub open spec fn set_price_index(list: Seq<MtgStocksCard>, set: SetName) -> int
    decreases list.len(),
{
    if list.len() == 0 {
        -1
    } else if set_eq(&list[0].set, &set) {
        0
    } else {
        let r = set_price_index(list.skip(1), set);
        if r < 0 {
            -1
        } else {
            r + 1
        }
    }
}

pub proof fn lemma_set_price_index_char(list: Seq<MtgStocksCard>, set: SetName)
    ensures
        set_price_index(list, set) == -1 ==> forall|i: int|
            0 <= i < list.len() ==> !set_eq(&(#[trigger] list[i]).set, &set),
        set_price_index(list, set) >= 0 ==> set_price_index(list, set) < list.len() && set_eq(
            &list[set_price_index(list, set)].set,
            &set,
        ) && forall|i: int| 0 <= i < set_price_index(list, set) ==> !set_eq(
            &(#[trigger] list[i]).set,
            &set,
        ),
    decreases list.len(),
{
    if list.len() > 0 && !set_eq(&list[0].set, &set) {
        lemma_set_price_index_char(list.skip(1), set);
        assert(forall|i: int| 1 <= i < list.len() ==> list.skip(1)[i - 1] == #[trigger] list[i]);
    }
}

/// The first price listed for the given set.
pub fn select_price_for_set(list: &Vec<MtgStocksCard>, set: &SetName) -> (r: Option<Price>)
    ensures
        r is Some <==> set_price_index(list@, *set) >= 0,
        r is Some ==> r->0 == list@[set_price_index(list@, *set)].price,
{
    proof {
        lemma_set_price_index_char(list@, *set);
    }
    let mut i: usize = 0;
    while i < list.len()
        invariant
            i <= list@.len(),
            forall|j: int| 0 <= j < i ==> !set_eq(&(#[trigger] list@[j]).set, set),
            set_price_index(list@, *set) == -1 ==> forall|j: int|
                0 <= j < list@.len() ==> !set_eq(&(#[trigger] list@[j]).set, set),
            set_price_index(list@, *set) >= 0 ==> set_price_index(list@, *set) < list@.len()
                && set_eq(&list@[set_price_index(list@, *set)].set, set) && forall|j: int|
                0 <= j < set_price_index(list@, *set) ==> !set_eq(&(#[trigger] list@[j]).set, set),
        decreases list@.len() - i,
    {
        if list[i].set == *set {
            proof {
                if set_price_index(list@, *set) == -1 {
                    assert(false);
                }
                if set_price_index(list@, *set) < i {
                    assert(false);
                }
                if set_price_index(list@, *set) > i {
                    assert(!set_eq(&list@[i as int].set, set));
                    assert(false);
                }
            }
            return Some(list[i].price);
        }
        i = i + 1;
    }
    proof {
        if set_price_index(list@, *set) >= 0 {
            assert(!set_eq(&list@[set_price_index(list@, *set)].set, set));
        }
    }
    None
}

/// What a cache state answers for an identity and set: the cached
/// price when the identity's list is present and holds the set, and
/// nothing otherwise — also when the identity is cached but the set is
/// not in its list, which falls through as a miss.
pub open spec fn lookup_spec(
    cache: Seq<(CardName, Vec<MtgStocksCard>)>,
    name: CardName,
    set: SetName,
) -> Option<Price> {
    let bi = bucket_index(cache, &name);
    if bi >= 0 && set_price_index(cache[bi].1@, set) >= 0 {
        Some(cache[bi].1@[set_price_index(cache[bi].1@, set)].price)
    } else {
        None
    }
}

/// The fallback client's state: where the provider lives, and the
/// per-identity memo of its per-set price lists.
pub struct MtgPriceFetcher {
    pub base_url: String,
    pub cache: Vec<(CardName, Vec<MtgStocksCard>)>,
}

impl MtgPriceFetcher {
    /// A fresh client with an empty cache.
    pub fn new(base_url: String) -> (r: MtgPriceFetcher)
        ensures
            r.base_url == base_url,
            r.cache@.len() == 0,
    {
        MtgPriceFetcher { base_url, cache: Vec::new() }
    }

    /// The cache check that precedes any network work.
    pub fn lookup(&self, name: &CardName, set: &SetName) -> (r: Option<Price>)
        ensures
            r == lookup_spec(self.cache@, *name, *set),
    {
        match crate::grouping::group_get(&self.cache, name) {
            None => None,
            Some(list) => select_price_for_set(list, set),
        }
    }

    /// Folds a fetched per-set list into the cache under the identity,
    /// replacing any earlier list, and answers for the asked set: its
    /// listed price, or failure when the provider does not list the
    /// set.
    pub fn complete_lookup(&mut self, name: CardName, set: &SetName, list: Vec<MtgStocksCard>) -> (
        r: Result<Price, String>)
        ensures
            ({
                let k = if bucket_index(old(self).cache@, &name) >= 0 {
                    bucket_index(old(self).cache@, &name)
                } else {
                    old(self).cache@.len() as int
                };
                &&& bucket_index(final(self).cache@, &name) == k
                &&& final(self).cache@[k].1@ == list@
                &&& final(self).cache@.len() as int == (if bucket_index(old(self).cache@, &name)
                    >= 0 {
                    old(self).cache@.len() as int
                } else {
                    old(self).cache@.len() as int + 1
                })
                &&& (forall|j: int|
                    0 <= j < old(self).cache@.len() && j != k ==> final(self).cache@[j] == old(
                        self,
                    ).cache@[j])
                &&& final(self).cache@[k].0 == (if bucket_index(old(self).cache@, &name) >= 0 {
                    old(self).cache@[k].0
                } else {
                    name
                })
                &&& final(self).base_url == old(self).base_url
            }),
            r is Ok <==> set_price_index(list@, *set) >= 0,
            r is Ok ==> r->Ok_0 == list@[set_price_index(list@, *set)].price,
    {
        let price = select_price_for_set(&list, set);
        cache_store(&mut self.cache, name, list);
        match price {
            Some(p) => Ok(p),
            None => Err(String::from_str("Card not found in the set")),
        }
    }
}

proof fn lemma_bucket_index_keys_only<T>(
    a: Seq<(CardName, Vec<T>)>,
    b: Seq<(CardName, Vec<T>)>,
    name: &CardName,
)
    requires
        a.len() == b.len(),
        forall|i: int| 0 <= i < a.len() ==> (#[trigger] b[i]).0 == a[i].0,
    ensures
        bucket_index(b, name) == bucket_index(a, name),
    decreases a.len(),
{
    if a.len() > 0 {
        assert(forall|i: int|
            0 <= i < a.skip(1).len() ==> (#[trigger] b.skip(1)[i]).0 == a.skip(1)[i].0);
        lemma_bucket_index_keys_only(a.skip(1), b.skip(1), name);
        assert(b[0].0 == a[0].0);
    }
}

proof fn lemma_bucket_index_push<T>(a: Seq<(CardName, Vec<T>)>, p: (CardName, Vec<T>), name: &CardName)
    requires
        bucket_index(a, name) == -1,
        crate::cardname::name_eq(&p.0, name),
    ensures
        bucket_index(a.push(p), name) == a.len(),
    decreases a.len(),
{
    if a.len() == 0 {
        assert(a.push(p)[0] == p);
    } else {
        assert(a.push(p)[0] == a[0]);
        assert(a.push(p).skip(1) =~= a.skip(1).push(p));
        lemma_bucket_index_push(a.skip(1), p, name);
    }
}

/// Replaces (or creates) the cached list of an identity.
fn cache_store(
    cache: &mut Vec<(CardName, Vec<MtgStocksCard>)>,
    name: CardName,
    list: Vec<MtgStocksCard>,
)
    ensures
        ({
            let k = if bucket_index(old(cache)@, &name) >= 0 {
                bucket_index(old(cache)@, &name)
            } else {
                old(cache)@.len() as int
            };
            &&& bucket_index(final(cache)@, &name) == k
            &&& final(cache)@[k].1@ == list@
            &&& final(cache)@.len() as int == (if bucket_index(old(cache)@, &name) >= 0 {
                old(cache)@.len() as int
            } else {
                old(cache)@.len() as int + 1
            })
            &&& (forall|j: int|
                0 <= j < old(cache)@.len() && j != k ==> final(cache)@[j] == old(cache)@[j])
            &&& final(cache)@[k].0 == (if bucket_index(old(cache)@, &name) >= 0 {
                old(cache)@[k].0
            } else {
                name
            })
        }),
{
    proof {
        lemma_bucket_index_char(cache@, &name);
    }
    let ghost g0 = cache@;
    let mut i: usize = 0;
    while i < cache.len()
        invariant
            cache@ == g0,
            g0 == old(cache)@,
            i <= g0.len(),
            forall|j: int| 0 <= j < i ==> !crate::cardname::name_eq(&(#[trigger] g0[j]).0, &name),
            bucket_index(g0, &name) == -1 ==> forall|j: int|
                0 <= j < g0.len() ==> !crate::cardname::name_eq(&(#[trigger] g0[j]).0, &name),
            bucket_index(g0, &name) >= 0 ==> bucket_index(g0, &name) < g0.len()
                && crate::cardname::name_eq(&g0[bucket_index(g0, &name)].0, &name) && forall|
                j: int,
            |
                0 <= j < bucket_index(g0, &name) ==> !crate::cardname::name_eq(
                    &(#[trigger] g0[j]).0,
                    &name,
                ),
        decreases g0.len() - i,
    {
        if cache[i].0 == name {
            proof {
                if bucket_index(g0, &name) == -1 {
                    assert(false);
                }
                if bucket_index(g0, &name) < i {
                    assert(false);
                }
                if bucket_index(g0, &name) > i {
                    assert(!crate::cardname::name_eq(&g0[i as int].0, &name));
                    assert(false);
                }
            }
            let pair = cache.remove(i);
            cache.insert(i, (pair.0, list));
            proof {
                assert(cache@ =~= g0.update(i as int, (g0[i as int].0, cache@[i as int].1)));
                assert(forall|j: int| 0 <= j < g0.len() && j != i ==> cache@[j] == g0[j]);
                assert(forall|j: int| 0 <= j < g0.len() ==> (#[trigger] cache@[j]).0 == g0[j].0);
                lemma_bucket_index_keys_only(g0, cache@, &name);
            }
            return ;
        }
        i = i + 1;
    }
    proof {
        if bucket_index(g0, &name) >= 0 {
            assert(!crate::cardname::name_eq(&g0[bucket_index(g0, &name)].0, &name));
        }
    }
    let ghost key = name;
    cache.push((name, list));
    proof {
        assert(crate::cardname::name_eq(&cache@.last().0, &key));
        assert(cache@.drop_last() =~= g0);
        assert(cache@ =~= g0.push(cache@.last()));
        lemma_bucket_index_push(g0, cache@.last(), &key);
    }
}

/// Once an identity's list is cached, every set the provider listed is
/// answered from the cache: a later lookup for any of those sets needs
/// no network call.
pub proof fn lemma_cached_identity_serves_all_sets(
    cache: Seq<(CardName, Vec<MtgStocksCard>)>,
    name: CardName,
    list: Seq<MtgStocksCard>,
    set: SetName,
    k: int,
)
    requires
        bucket_index(cache, &name) == k,
        0 <= k < cache.len(),
        cache[k].1@ == list,
        set_price_index(list, set) >= 0,
    ensures
        lookup_spec(cache, name, set) == Some(list[set_price_index(list, set)].price),
{
}

// ---------------------------------------------------------------------
// Request paths for the provider
// ---------------------------------------------------------------------

/// The URL-encoded form of a string under the form-urlencoded rules.
pub uninterp spec fn form_urlencoded_of(s: Seq<char>) -> Seq<char>;

/// Relies on url::form_urlencoded::byte_serialize: percent-encodes the
/// string's bytes for use in a URL; the result depends on the input
/// alone.
#[verifier::external_body]
fn form_urlencode(s: &str) -> (r: String)
    ensures
        r@ == form_urlencoded_of(s@),
{
    url::form_urlencoded::byte_serialize(s.as_bytes()).collect()
}

/// The provider's name-search address for a card name.
pub fn get_card_search_uri(card_name: &str) -> (r: String)
    ensures
        r@ == "https://api.mtgstocks.com/search/autocomplete/"@ + form_urlencoded_of(card_name@),
{
    let enc = form_urlencode(card_name);
    let base = String::from_str("https://api.mtgstocks.com/search/autocomplete/");
    base.concat(enc.as_str())
}

impl MtgPriceFetcher {
    /// The provider's per-set price address for a resolved slug.
    pub fn get_prints_uri(&self, slug: &str) -> (r: String)
        ensures
            r@ == self.base_url@ + "/prints/"@ + form_urlencoded_of(slug@),
    {
        let enc = form_urlencode(slug);
        let mut r = self.base_url.clone();
        r.append("/prints/");
        r.append(enc.as_str());
        r
    }
}

// ---------------------------------------------------------------------
// Choosing a search result
// ---------------------------------------------------------------------

/// Index of the first search candidate whose display name does not
/// contain "Token", or -1.
pub open spec fn token_free_index(cands: Seq<(String, String)>) -> int
    decreases cands.len(),
{
    if cands.len() == 0 {
        -1
    } else if !crate::text::seq_contains(cands[0].0@, "Token"@) {
        0
    } else {
        let r = token_free_index(cands.skip(1));
        if r < 0 {
            -1
        } else {
            r + 1
        }
    }
}

pub proof fn lemma_token_free_index_char(cands: Seq<(String, String)>)
    ensures
        token_free_index(cands) == -1 ==> forall|i: int|
            0 <= i < cands.len() ==> crate::text::seq_contains((#[trigger] cands[i]).0@, "Token"@),
        token_free_index(cands) >= 0 ==> token_free_index(cands) < cands.len()
            && !crate::text::seq_contains(cands[token_free_index(cands)].0@, "Token"@) && forall|
            i: int,
        |
            0 <= i < token_free_index(cands) ==> crate::text::seq_contains(
                (#[trigger] cands[i]).0@,
                "Token"@,
            ),
    decreases cands.len(),
{
    if cands.len() > 0 && crate::text::seq_contains(cands[0].0@, "Token"@) {
        lemma_token_free_index_char(cands.skip(1));
        assert(forall|i: int| 1 <= i < cands.len() ==> cands.skip(1)[i - 1] == #[trigger] cands[i]);
    }
}

/// Picks the slug of the first search candidate that is not a token
/// listing; candidates are (display name, slug) pairs.
pub fn choose_slug(cands: &Vec<(String, String)>) -> (r: Option<String>)
    ensures
        r is Some <==> token_free_index(cands@) >= 0,
        r is Some ==> r->0@ == cands@[token_free_index(cands@)].1@,
{
    proof {
        lemma_token_free_index_char(cands@);
    }
    let token = crate::text::str_chars("Token");
    let mut i: usize = 0;
    while i < cands.len()
        invariant
            token@ == "Token"@,
            i <= cands@.len(),
            forall|j: int|
                0 <= j < i ==> crate::text::seq_contains((#[trigger] cands@[j]).0@, "Token"@),
            token_free_index(cands@) == -1 ==> forall|j: int|
                0 <= j < cands@.len() ==> crate::text::seq_contains(
                    (#[trigger] cands@[j]).0@,
                    "Token"@,
                ),
            token_free_index(cands@) >= 0 ==> token_free_index(cands@) < cands@.len()
                && !crate::text::seq_contains(cands@[token_free_index(cands@)].0@, "Token"@)
                && forall|j: int|
                0 <= j < token_free_index(cands@) ==> crate::text::seq_contains(
                    (#[trigger] cands@[j]).0@,
                    "Token"@,
                ),
        decreases cands@.len() - i,
    {
        let name_chars = crate::text::str_chars(cands[i].0.as_str());
        if !crate::text::contains_chars(&name_chars, &token) {
            proof {
                if token_free_index(cands@) == -1 {
                    assert(false);
                }
                if token_free_index(cands@) < i {
                    assert(false);
                }
                if token_free_index(cands@) > i {
                    assert(crate::text::seq_contains(cands@[i as int].0@, "Token"@));
                    assert(false);
                }
            }
            return Some(cands[i].1.clone());
        }
        i = i + 1;
    }
    proof {
        if token_free_index(cands@) >= 0 {
            assert(crate::text::seq_contains(cands@[token_free_index(cands@)].0@, "Token"@));
        }
    }
    None
}

} // verus!
