//! The comparison engine: matches each vendor listing to a reference
//! record of the same identity, picks the reference price for the
//! listing's finish, and emits the price delta in whole kronor.
//!
//! Matching per listing follows two rules in order: an exact
//! collector-number match when both sides carry one, else an exact
//! set-identity match, else no match (the listing yields nothing).
//! A missing reference price is resolved through the live-price
//! fallback, which runs outside this module: planning marks the
//! listing as needing a live price, and a later step folds the fetched
//! price (or the zero sentinel when the fallback also missed) into the
//! result.
use vstd::multiset::Multiset;
use vstd::prelude::*;

use crate::cardname::CardName;
use crate::collector_number::collector_number_eq;
use crate::compared_card::ComparedCard;
use crate::currency::Currency;
use crate::price::convert_amount_spec;
use crate::price::whole_units_spec;
use crate::price::Price;
use crate::price::MAX_CONVERT_INPUT;
use crate::price::MAX_PRICE_AMOUNT;
use crate::price::NANOS_PER_UNIT;
use crate::scryfallcard::ScryfallCard;
use crate::setname::set_eq;
use crate::vendorcard::VendorCard;

verus! {

// ---------------------------------------------------------------------
// Matching rules
// ---------------------------------------------------------------------

/// Rule one: both sides carry a collector number and the numbers are
/// equal.
pub open spec fn cn_match(v: VendorCard, s: ScryfallCard) -> bool {
    match (v.collector_number, s.collector_number) {
        (Some(a), Some(b)) => collector_number_eq(&a, &b),
        _ => false,
    }
}

/// Rule two: the set identities are equal.
pub open spec fn set_match(v: VendorCard, s: ScryfallCard) -> bool {
    set_eq(&v.set, &s.set)
}

/// Index of the first reference record matching by collector number,
/// or -1.
pub open spec fn first_cn_index(refs: Seq<ScryfallCard>, v: VendorCard) -> int
    decreases refs.len(),
{
    if refs.len() == 0 {
        -1
    } else if cn_match(v, refs[0]) {
        0
    } else {
        let r = first_cn_index(refs.skip(1), v);
        if r < 0 {
            -1
        } else {
            r + 1
        }
    }
}

/// Index of the first reference record matching by set, or -1.
pub open spec fn first_set_index(refs: Seq<ScryfallCard>, v: VendorCard) -> int
    decreases refs.len(),
{
    if refs.len() == 0 {
        -1
    } else if set_match(v, refs[0]) {
        0
    } else {
        let r = first_set_index(refs.skip(1), v);
        if r < 0 {
            -1
        } else {
            r + 1
        }
    }
}

/// The record a vendor listing is compared against: the first
/// collector-number match when one exists, else the first set match,
/// else none (-1).
pub open spec fn matched_ref_index(refs: Seq<ScryfallCard>, v: VendorCard) -> int {
    if first_cn_index(refs, v) >= 0 {
        first_cn_index(refs, v)
    } else {
        first_set_index(refs, v)
    }
}

pub proof fn lemma_first_cn_char(refs: Seq<ScryfallCard>, v: VendorCard)
    ensures
        first_cn_index(refs, v) == -1 ==> forall|i: int|
            0 <= i < refs.len() ==> !cn_match(v, #[trigger] refs[i]),
        first_cn_index(refs, v) >= 0 ==> first_cn_index(refs, v) < refs.len() && cn_match(
            v,
            refs[first_cn_index(refs, v)],
        ) && forall|i: int| 0 <= i < first_cn_index(refs, v) ==> !cn_match(v, #[trigger] refs[i]),
    decreases refs.len(),
{
    if refs.len() > 0 && !cn_match(v, refs[0]) {
        lemma_first_cn_char(refs.skip(1), v);
        assert(forall|i: int| 1 <= i < refs.len() ==> refs.skip(1)[i - 1] == #[trigger] refs[i]);
    }
}

pub proof fn lemma_first_set_char(refs: Seq<ScryfallCard>, v: VendorCard)
    ensures
        first_set_index(refs, v) == -1 ==> forall|i: int|
            0 <= i < refs.len() ==> !set_match(v, #[trigger] refs[i]),
        first_set_index(refs, v) >= 0 ==> first_set_index(refs, v) < refs.len() && set_match(
            v,
            refs[first_set_index(refs, v)],
        ) && forall|i: int| 0 <= i < first_set_index(refs, v) ==> !set_match(v, #[trigger] refs[i]),
    decreases refs.len(),
{
    if refs.len() > 0 && !set_match(v, refs[0]) {
        lemma_first_set_char(refs.skip(1), v);
        assert(forall|i: int| 1 <= i < refs.len() ==> refs.skip(1)[i - 1] == #[trigger] refs[i]);
    }
}

/// A collector-number match always wins: whenever any reference record
/// matches the listing's collector number, the record the comparison
/// uses is a collector-number match, even if another record matches
/// by set alone.
pub proof fn lemma_collector_number_priority(refs: Seq<ScryfallCard>, v: VendorCard, i: int)
    requires
        0 <= i < refs.len(),
        cn_match(v, refs[i]),
    ensures
        matched_ref_index(refs, v) >= 0,
        cn_match(v, refs[matched_ref_index(refs, v)]),
{
    lemma_first_cn_char(refs, v);
    if first_cn_index(refs, v) == -1 {
        assert(!cn_match(v, refs[i]));
    }
}

fn cn_match_exec(v: &VendorCard, s: &ScryfallCard) -> (r: bool)
    ensures
        r == cn_match(*v, *s),
{
    match (&v.collector_number, &s.collector_number) {
        (Some(a), Some(b)) => *a == *b,
        _ => false,
    }
}

/// Finds the reference record a vendor listing is compared against.
pub fn find_matching_scryfall_card(v: &VendorCard, refs: &Vec<ScryfallCard>) -> (r: Option<usize>)
    ensures
        r is Some <==> matched_ref_index(refs@, *v) >= 0,
        r is Some ==> r->0 == matched_ref_index(refs@, *v) && r->0 < refs@.len(),
{
    proof {
        lemma_first_cn_char(refs@, *v);
        lemma_first_set_char(refs@, *v);
    }
    let mut i: usize = 0;
    while i < refs.len()
        invariant
            i <= refs@.len(),
            forall|j: int| 0 <= j < i ==> !cn_match(*v, #[trigger] refs@[j]),
            first_cn_index(refs@, *v) == -1 ==> forall|j: int|
                0 <= j < refs@.len() ==> !cn_match(*v, #[trigger] refs@[j]),
            first_cn_index(refs@, *v) >= 0 ==> first_cn_index(refs@, *v) < refs@.len() && cn_match(
                *v,
                refs@[first_cn_index(refs@, *v)],
            ) && forall|j: int| 0 <= j < first_cn_index(refs@, *v) ==> !cn_match(
                *v,
                #[trigger] refs@[j],
            ),
        decreases refs@.len() - i,
    {
        if cn_match_exec(v, &refs[i]) {
            proof {
                if first_cn_index(refs@, *v) == -1 {
                    assert(false);
                }
                if first_cn_index(refs@, *v) < i {
                    assert(false);
                }
                if first_cn_index(refs@, *v) > i {
                    assert(!cn_match(*v, refs@[i as int]));
                    assert(false);
                }
            }
            return Some(i);
        }
        i = i + 1;
    }
    proof {
        if first_cn_index(refs@, *v) >= 0 {
            assert(!cn_match(*v, refs@[first_cn_index(refs@, *v)]));
        }
    }
    let mut k: usize = 0;
    while k < refs.len()
        invariant
            first_cn_index(refs@, *v) == -1,
            k <= refs@.len(),
            forall|j: int| 0 <= j < k ==> !set_match(*v, #[trigger] refs@[j]),
            first_set_index(refs@, *v) == -1 ==> forall|j: int|
                0 <= j < refs@.len() ==> !set_match(*v, #[trigger] refs@[j]),
            first_set_index(refs@, *v) >= 0 ==> first_set_index(refs@, *v) < refs@.len()
                && set_match(*v, refs@[first_set_index(refs@, *v)]) && forall|j: int|
                0 <= j < first_set_index(refs@, *v) ==> !set_match(*v, #[trigger] refs@[j]),
        decreases refs@.len() - k,
    {
        if v.set == refs[k].set {
            proof {
                if first_set_index(refs@, *v) == -1 {
                    assert(false);
                }
                if first_set_index(refs@, *v) < k {
                    assert(false);
                }
                if first_set_index(refs@, *v) > k {
                    assert(!set_match(*v, refs@[k as int]));
                    assert(false);
                }
            }
            return Some(k);
        }
        k = k + 1;
    }
    proof {
        if first_set_index(refs@, *v) >= 0 {
            assert(!set_match(*v, refs@[first_set_index(refs@, *v)]));
        }
    }
    None
}

// ---------------------------------------------------------------------
// Price selection and the delta
// ---------------------------------------------------------------------

/// The reference price for the listing's finish.
pub open spec fn reference_price_spec(s: ScryfallCard, foil: bool) -> Option<Price> {
    if foil {
        s.prices.eur_foil
    } else {
        s.prices.eur
    }
}

pub fn select_reference_price(s: &ScryfallCard, foil: bool) -> (r: Option<Price>)
    ensures
        r == reference_price_spec(*s, foil),
{
    if foil {
        s.prices.eur_foil
    } else {
        s.prices.eur
    }
}

/// Vendor price minus reference price, both first converted to kronor
/// and truncated to whole units.
pub open spec fn delta_sek_spec(vp: Price, rp: Price) -> int {
    whole_units_spec(convert_amount_spec(vp.amount as int, vp.currency, Currency::SEK))
        - whole_units_spec(convert_amount_spec(rp.amount as int, rp.currency, Currency::SEK))
}

proof fn lemma_sek_whole_bound(p: Price)
    requires
        p.wf(),
    ensures
        0 <= whole_units_spec(convert_amount_spec(p.amount as int, p.currency, Currency::SEK))
            < 0x80000000,
{
    let c = convert_amount_spec(p.amount as int, p.currency, Currency::SEK);
    if p.currency == Currency::SEK {
        assert(c == p.amount as int);
        assert(whole_units_spec(c) <= (MAX_PRICE_AMOUNT as int) / (NANOS_PER_UNIT as int)) by {
            vstd::arithmetic::div_mod::lemma_div_is_ordered(
                c,
                MAX_PRICE_AMOUNT as int,
                NANOS_PER_UNIT as int,
            );
        }
        vstd::arithmetic::div_mod::lemma_div_pos_is_pos(c, NANOS_PER_UNIT as int);
    } else {
        assert(c == p.amount * 110304 / 10000);
        assert(p.amount * 110304 <= (MAX_PRICE_AMOUNT as int) * 110304) by (nonlinear_arith)
            requires
                p.amount <= MAX_PRICE_AMOUNT,
        ;
        vstd::arithmetic::mul::lemma_mul_nonnegative(p.amount as int, 110304);
        vstd::arithmetic::div_mod::lemma_div_is_ordered(
            p.amount * 110304,
            (MAX_PRICE_AMOUNT as int) * 110304,
            10000,
        );
        vstd::arithmetic::div_mod::lemma_div_pos_is_pos(p.amount * 110304, 10000);
        vstd::arithmetic::div_mod::lemma_div_is_ordered(
            c,
            (MAX_PRICE_AMOUNT as int) * 110304 / 10000,
            NANOS_PER_UNIT as int,
        );
        vstd::arithmetic::div_mod::lemma_div_pos_is_pos(c, NANOS_PER_UNIT as int);
    }
}

/// The whole-kronor price delta of a single comparison.
pub fn price_difference_sek(vp: &Price, rp: &Price) -> (d: i32)
    requires
        vp.wf(),
        rp.wf(),
    ensures
        d == delta_sek_spec(*vp, *rp),
{
    proof {
        lemma_sek_whole_bound(*vp);
        lemma_sek_whole_bound(*rp);
    }
    let a = vp.convert_to(Currency::SEK).whole_units();
    let b = rp.convert_to(Currency::SEK).whole_units();
    ((a as i64) - (b as i64)) as i32
}

/// The zero-amount sentinel used when the live fallback also fails
/// while external price checking is on.
pub open spec fn zero_sentinel_spec() -> Price {
    Price { amount: 0, currency: Currency::SEK }
}

pub fn zero_sentinel_price() -> (r: Price)
    ensures
        r == zero_sentinel_spec(),
        r.wf(),
{
    Price { amount: 0, currency: Currency::SEK }
}

/// The comparison emitted for a matched pair once a reference price is
/// in hand.
pub open spec fn build_compared_spec(v: VendorCard, s: ScryfallCard, mcm: Price) -> ComparedCard {
    ComparedCard {
        vendor_card: v,
        scryfall_card: s,
        price_difference_to_cheapest_vendor_card: delta_sek_spec(v.price, mcm) as i32,
    }
}

pub fn build_compared_card(v: &VendorCard, s: &ScryfallCard, mcm: Price) -> (r: ComparedCard)
    requires
        v.price.wf(),
        mcm.wf(),
    ensures
        r == build_compared_spec(*v, *s, mcm),
{
    let d = price_difference_sek(&v.price, &mcm);
    ComparedCard {
        vendor_card: v.clone(),
        scryfall_card: s.clone(),
        price_difference_to_cheapest_vendor_card: d,
    }
}

// ---------------------------------------------------------------------
// Planning one listing
// ---------------------------------------------------------------------

/// What the comparison decides for one vendor listing before any
/// network work: nothing to emit, a finished comparison, or a live
/// price to fetch for the matched reference record.
pub enum ComparisonStep {
    NoMatch,
    Ready(ComparedCard),
    NeedsLivePrice(usize),
}

/// The decision for one listing: no matching reference record yields
/// nothing; a match with a reference price for the listing's finish is
/// compared at once; a match without one needs the live fallback when
/// external price checking is on, and yields nothing when it is off.
pub open spec fn plan_spec(v: VendorCard, refs: Seq<ScryfallCard>, external_price_check: bool) -> ComparisonStep {
    let m = matched_ref_index(refs, v);
    if m < 0 {
        ComparisonStep::NoMatch
    } else {
        match reference_price_spec(refs[m], v.foil) {
            Some(p) => ComparisonStep::Ready(build_compared_spec(v, refs[m], p)),
            None => if external_price_check {
                ComparisonStep::NeedsLivePrice(m as usize)
            } else {
                ComparisonStep::NoMatch
            },
        }
    }
}

/// All reference records of a bucket are well-formed.
pub open spec fn refs_wf(refs: Seq<ScryfallCard>) -> bool {
    forall|i: int| 0 <= i < refs.len() ==> (#[trigger] refs[i]).wf()
}

pub fn plan_comparison(v: &VendorCard, refs: &Vec<ScryfallCard>, external_price_check: bool) -> (r:
    ComparisonStep)
    requires
        v.wf(),
        refs_wf(refs@),
    ensures
        r == plan_spec(*v, refs@, external_price_check),
{
    match find_matching_scryfall_card(v, refs) {
        None => ComparisonStep::NoMatch,
        Some(m) => {
            let matched = &refs[m];
            match select_reference_price(matched, v.foil) {
                Some(p) => {
                    assert(refs@[m as int].wf());
                    ComparisonStep::Ready(build_compared_card(v, matched, p))
                },
                None => {
                    if external_price_check {
                        ComparisonStep::NeedsLivePrice(m)
                    } else {
                        ComparisonStep::NoMatch
                    }
                },
            }
        },
    }
}

// ---------------------------------------------------------------------
// Completing a listing that needed the live fallback
// ---------------------------------------------------------------------

/// A deferred comparison: the matched pair, waiting for a live price.
pub struct LivePriceRequest {
    pub vendor_card: VendorCard,
    pub scryfall_card: ScryfallCard,
}

/// The comparison emitted once the live fallback answered: its price
/// when it found one, else the zero sentinel.
pub open spec fn finish_spec(v: VendorCard, s: ScryfallCard, live: Option<Price>) -> ComparedCard {
    match live {
        Some(p) => build_compared_spec(v, s, p),
        None => build_compared_spec(v, s, zero_sentinel_spec()),
    }
}

pub fn finish_comparison(v: &VendorCard, s: &ScryfallCard, live: Option<Price>) -> (r:
    ComparedCard)
    requires
        v.price.wf(),
        live is Some ==> live->0.wf(),
    ensures
        r == finish_spec(*v, *s, live),
{
    match live {
        Some(p) => build_compared_card(v, s, p),
        None => build_compared_card(v, s, zero_sentinel_price()),
    }
}

/// Completes deferred comparisons with the fallback's answers, one
/// answer per request.
pub fn complete_requests(requests: &Vec<LivePriceRequest>, live: &Vec<Option<Price>>) -> (r: Vec<
    ComparedCard,
>)
    requires
        requests@.len() == live@.len(),
        forall|i: int| 0 <= i < requests@.len() ==> (#[trigger] requests@[i]).vendor_card.price.wf(),
        forall|i: int| 0 <= i < live@.len() ==> ((#[trigger] live@[i]) is Some ==> live@[i]->0.wf()),
    ensures
        r@.len() == requests@.len(),
        forall|i: int|
            0 <= i < requests@.len() ==> r@[i] == finish_spec(
                (#[trigger] requests@[i]).vendor_card,
                requests@[i].scryfall_card,
                live@[i],
            ),
{
    let mut r: Vec<ComparedCard> = Vec::new();
    let mut i: usize = 0;
    while i < requests.len()
        invariant
            requests@.len() == live@.len(),
            forall|j: int|
                0 <= j < requests@.len() ==> (#[trigger] requests@[j]).vendor_card.price.wf(),
            forall|j: int|
                0 <= j < live@.len() ==> ((#[trigger] live@[j]) is Some ==> live@[j]->0.wf()),
            i <= requests@.len(),
            r@.len() == i,
            forall|j: int|
                0 <= j < i ==> r@[j] == finish_spec(
                    (#[trigger] requests@[j]).vendor_card,
                    requests@[j].scryfall_card,
                    live@[j],
                ),
        decreases requests@.len() - i,
    {
        let req = &requests[i];
        let c = finish_comparison(&req.vendor_card, &req.scryfall_card, live[i]);
        r.push(c);
        i = i + 1;
    }
    r
}

// ---------------------------------------------------------------------
// Planning a whole bucket
// ---------------------------------------------------------------------

/// All vendor listings of a bucket are well-formed.
pub open spec fn cards_wf(cards: Seq<VendorCard>) -> bool {
    forall|i: int| 0 <= i < cards.len() ==> (#[trigger] cards[i]).wf()
}

/// The comparisons a bucket yields at once, in listing order.
pub open spec fn bucket_ready_spec(
    cards: Seq<VendorCard>,
    refs: Seq<ScryfallCard>,
    external_price_check: bool,
) -> Seq<ComparedCard>
    decreases cards.len(),
{
    if cards.len() == 0 {
        Seq::empty()
    } else {
        let rest = bucket_ready_spec(cards.skip(1), refs, external_price_check);
        match plan_spec(cards[0], refs, external_price_check) {
            ComparisonStep::Ready(c) => seq![c] + rest,
            _ => rest,
        }
    }
}

/// The live-price requests a bucket defers, in listing order.
pub open spec fn bucket_requests_spec(
    cards: Seq<VendorCard>,
    refs: Seq<ScryfallCard>,
    external_price_check: bool,
) -> Seq<LivePriceRequest>
    decreases cards.len(),
{
    if cards.len() == 0 {
        Seq::empty()
    } else {
        let rest = bucket_requests_spec(cards.skip(1), refs, external_price_check);
        match plan_spec(cards[0], refs, external_price_check) {
            ComparisonStep::NeedsLivePrice(m) => seq![
                LivePriceRequest { vendor_card: cards[0], scryfall_card: refs[m as int] },
            ] + rest,
            _ => rest,
        }
    }
}

proof fn lemma_bucket_plan_step(
    cards: Seq<VendorCard>,
    refs: Seq<ScryfallCard>,
    external_price_check: bool,
    i: int,
)
    requires
        0 <= i < cards.len(),
    ensures
        bucket_ready_spec(cards.skip(i), refs, external_price_check) == (match plan_spec(
            cards[i],
            refs,
            external_price_check,
        ) {
            ComparisonStep::Ready(c) => seq![c] + bucket_ready_spec(
                cards.skip(i + 1),
                refs,
                external_price_check,
            ),
            _ => bucket_ready_spec(cards.skip(i + 1), refs, external_price_check),
        }),
        bucket_requests_spec(cards.skip(i), refs, external_price_check) == (match plan_spec(
            cards[i],
            refs,
            external_price_check,
        ) {
            ComparisonStep::NeedsLivePrice(m) => seq![
                LivePriceRequest { vendor_card: cards[i], scryfall_card: refs[m as int] },
            ] + bucket_requests_spec(cards.skip(i + 1), refs, external_price_check),
            _ => bucket_requests_spec(cards.skip(i + 1), refs, external_price_check),
        }),
{
    let t = cards.skip(i);
    assert(t[0] == cards[i]);
    assert(t.skip(1) =~= cards.skip(i + 1));
}

/// Plans every listing of one bucket against the bucket's reference
/// records: the finished comparisons and the deferred requests, both
/// in listing order.
pub fn plan_bucket(
    cards: &Vec<VendorCard>,
    refs: &Vec<ScryfallCard>,
    external_price_check: bool,
) -> (r: (Vec<ComparedCard>, Vec<LivePriceRequest>))
    requires
        cards_wf(cards@),
        refs_wf(refs@),
    ensures
        r.0@ == bucket_ready_spec(cards@, refs@, external_price_check),
        r.1@ == bucket_requests_spec(cards@, refs@, external_price_check),
{
    let mut ready: Vec<ComparedCard> = Vec::new();
    let mut requests: Vec<LivePriceRequest> = Vec::new();
    proof {
        assert(cards@.skip(0) =~= cards@);
        assert(Seq::<ComparedCard>::empty() + bucket_ready_spec(
            cards@,
            refs@,
            external_price_check,
        ) =~= bucket_ready_spec(cards@, refs@, external_price_check));
        assert(Seq::<LivePriceRequest>::empty() + bucket_requests_spec(
            cards@,
            refs@,
            external_price_check,
        ) =~= bucket_requests_spec(cards@, refs@, external_price_check));
    }
    let mut i: usize = 0;
    while i < cards.len()
        invariant
            cards_wf(cards@),
            refs_wf(refs@),
            i <= cards@.len(),
            bucket_ready_spec(cards@, refs@, external_price_check) == ready@ + bucket_ready_spec(
                cards@.skip(i as int),
                refs@,
                external_price_check,
            ),
            bucket_requests_spec(cards@, refs@, external_price_check) == requests@
                + bucket_requests_spec(cards@.skip(i as int), refs@, external_price_check),
        decreases cards@.len() - i,
    {
        proof {
            lemma_bucket_plan_step(cards@, refs@, external_price_check, i as int);
        }
        let card = &cards[i];
        let step = plan_comparison(card, refs, external_price_check);
        proof {
            lemma_first_cn_char(refs@, cards@[i as int]);
            lemma_first_set_char(refs@, cards@[i as int]);
        }
        match step {
            ComparisonStep::NoMatch => {},
            ComparisonStep::Ready(c) => {
                ready.push(c);
                proof {
                    assert(ready@ + bucket_ready_spec(
                        cards@.skip(i + 1 as int),
                        refs@,
                        external_price_check,
                    ) =~= ready@.drop_last() + (seq![ready@.last()] + bucket_ready_spec(
                        cards@.skip(i + 1 as int),
                        refs@,
                        external_price_check,
                    )));
                }
            },
            ComparisonStep::NeedsLivePrice(m) => {
                let req = LivePriceRequest {
                    vendor_card: card.clone(),
                    scryfall_card: refs[m].clone(),
                };
                requests.push(req);
                proof {
                    assert(requests@ + bucket_requests_spec(
                        cards@.skip(i + 1 as int),
                        refs@,
                        external_price_check,
                    ) =~= requests@.drop_last() + (seq![requests@.last()] + bucket_requests_spec(
                        cards@.skip(i + 1 as int),
                        refs@,
                        external_price_check,
                    )));
                }
            },
        }
        i = i + 1;
    }
    proof {
        assert(cards@.skip(cards@.len() as int) =~= Seq::<VendorCard>::empty());
        assert(ready@ + Seq::<ComparedCard>::empty() =~= ready@);
        assert(requests@ + Seq::<LivePriceRequest>::empty() =~= requests@);
    }
    (ready, requests)
}

// ---------------------------------------------------------------------
// Planning a whole run
// ---------------------------------------------------------------------

/// The bucket vectors seen as sequences.
pub open spec fn view_groups<T>(g: Seq<(CardName, Vec<T>)>) -> Seq<(CardName, Seq<T>)> {
    g.map_values(|p: (CardName, Vec<T>)| (p.0, p.1@))
}

/// All vendor listings of every bucket are well-formed.
pub open spec fn vendor_groups_wf(g: Seq<(CardName, Vec<VendorCard>)>) -> bool {
    forall|i: int| 0 <= i < g.len() ==> cards_wf((#[trigger] g[i]).1@)
}

/// All reference records of every bucket are well-formed.
pub open spec fn ref_groups_wf(g: Seq<(CardName, Vec<ScryfallCard>)>) -> bool {
    forall|i: int| 0 <= i < g.len() ==> refs_wf((#[trigger] g[i]).1@)
}

/// The comparisons a whole run yields at once: bucket by bucket, each
/// vendor bucket planned against the reference bucket of its identity;
/// an identity absent from the reference index contributes nothing.
pub open spec fn all_ready_spec(
    groups: Seq<(CardName, Seq<VendorCard>)>,
    refs: Seq<(CardName, Vec<ScryfallCard>)>,
    external_price_check: bool,
) -> Seq<ComparedCard>
    decreases groups.len(),
{
    if groups.len() == 0 {
        Seq::empty()
    } else {
        let rest = all_ready_spec(groups.skip(1), refs, external_price_check);
        let bi = crate::grouping::bucket_index(refs, &groups[0].0);
        if bi < 0 {
            rest
        } else {
            bucket_ready_spec(groups[0].1, refs[bi].1@, external_price_check) + rest
        }
    }
}

/// The live-price requests a whole run defers, in the same order.
pub open spec fn all_requests_spec(
    groups: Seq<(CardName, Seq<VendorCard>)>,
    refs: Seq<(CardName, Vec<ScryfallCard>)>,
    external_price_check: bool,
) -> Seq<LivePriceRequest>
    decreases groups.len(),
{
    if groups.len() == 0 {
        Seq::empty()
    } else {
        let rest = all_requests_spec(groups.skip(1), refs, external_price_check);
        let bi = crate::grouping::bucket_index(refs, &groups[0].0);
        if bi < 0 {
            rest
        } else {
            bucket_requests_spec(groups[0].1, refs[bi].1@, external_price_check) + rest
        }
    }
}

proof fn lemma_all_plan_step(
    groups: Seq<(CardName, Seq<VendorCard>)>,
    refs: Seq<(CardName, Vec<ScryfallCard>)>,
    external_price_check: bool,
    i: int,
)
    requires
        0 <= i < groups.len(),
    ensures
        all_ready_spec(groups.skip(i), refs, external_price_check) == (if crate::grouping::bucket_index(refs, &groups[i].0) < 0 {
            all_ready_spec(groups.skip(i + 1), refs, external_price_check)
        } else {
            bucket_ready_spec(
                groups[i].1,
                refs[crate::grouping::bucket_index(refs, &groups[i].0)].1@,
                external_price_check,
            ) + all_ready_spec(groups.skip(i + 1), refs, external_price_check)
        }),
        all_requests_spec(groups.skip(i), refs, external_price_check) == (if crate::grouping::bucket_index(refs, &groups[i].0) < 0 {
            all_requests_spec(groups.skip(i + 1), refs, external_price_check)
        } else {
            bucket_requests_spec(
                groups[i].1,
                refs[crate::grouping::bucket_index(refs, &groups[i].0)].1@,
                external_price_check,
            ) + all_requests_spec(groups.skip(i + 1), refs, external_price_check)
        }),
{
    let t = groups.skip(i);
    assert(t[0] == groups[i]);
    assert(t.skip(1) =~= groups.skip(i + 1));
}

/// Plans every vendor bucket of a run against the reference index.
pub fn plan_all(
    vendor_groups: &Vec<(CardName, Vec<VendorCard>)>,
    ref_groups: &Vec<(CardName, Vec<ScryfallCard>)>,
    external_price_check: bool,
) -> (r: (Vec<ComparedCard>, Vec<LivePriceRequest>))
    requires
        vendor_groups_wf(vendor_groups@),
        ref_groups_wf(ref_groups@),
    ensures
        r.0@ == all_ready_spec(view_groups(vendor_groups@), ref_groups@, external_price_check),
        r.1@ == all_requests_spec(view_groups(vendor_groups@), ref_groups@, external_price_check),
{
    let ghost gv = view_groups(vendor_groups@);
    let mut ready: Vec<ComparedCard> = Vec::new();
    let mut requests: Vec<LivePriceRequest> = Vec::new();
    proof {
        assert(gv.skip(0) =~= gv);
        assert(Seq::<ComparedCard>::empty() + all_ready_spec(gv, ref_groups@, external_price_check)
            =~= all_ready_spec(gv, ref_groups@, external_price_check));
        assert(Seq::<LivePriceRequest>::empty() + all_requests_spec(
            gv,
            ref_groups@,
            external_price_check,
        ) =~= all_requests_spec(gv, ref_groups@, external_price_check));
    }
    let mut i: usize = 0;
    while i < vendor_groups.len()
        invariant
            vendor_groups_wf(vendor_groups@),
            ref_groups_wf(ref_groups@),
            gv == view_groups(vendor_groups@),
            gv.len() == vendor_groups@.len(),
            i <= gv.len(),
            all_ready_spec(gv, ref_groups@, external_price_check) == ready@ + all_ready_spec(
                gv.skip(i as int),
                ref_groups@,
                external_price_check,
            ),
            all_requests_spec(gv, ref_groups@, external_price_check) == requests@
                + all_requests_spec(gv.skip(i as int), ref_groups@, external_price_check),
        decreases gv.len() - i,
    {
        proof {
            lemma_all_plan_step(gv, ref_groups@, external_price_check, i as int);
            assert(gv[i as int] == (vendor_groups@[i as int].0, vendor_groups@[i as int].1@));
        }
        let key = &vendor_groups[i].0;
        match crate::grouping::group_get(ref_groups, key) {
            None => {},
            Some(refs) => {
                proof {
                    crate::grouping::lemma_bucket_index_char(
                        ref_groups@,
                        &vendor_groups@[i as int].0,
                    );
                    assert(refs_wf(refs@));
                }
                let (mut r0, mut r1) = plan_bucket(&vendor_groups[i].1, refs, external_price_check);
                let ghost old_ready = ready@;
                let ghost old_requests = requests@;
                ready.append(&mut r0);
                requests.append(&mut r1);
                proof {
                    assert(ready@ + all_ready_spec(
                        gv.skip(i + 1 as int),
                        ref_groups@,
                        external_price_check,
                    ) =~= old_ready + (bucket_ready_spec(
                        gv[i as int].1,
                        ref_groups@[crate::grouping::bucket_index(ref_groups@, &gv[i as int].0)].1@,
                        external_price_check,
                    ) + all_ready_spec(gv.skip(i + 1 as int), ref_groups@, external_price_check)));
                    assert(requests@ + all_requests_spec(
                        gv.skip(i + 1 as int),
                        ref_groups@,
                        external_price_check,
                    ) =~= old_requests + (bucket_requests_spec(
                        gv[i as int].1,
                        ref_groups@[crate::grouping::bucket_index(ref_groups@, &gv[i as int].0)].1@,
                        external_price_check,
                    ) + all_requests_spec(
                        gv.skip(i + 1 as int),
                        ref_groups@,
                        external_price_check,
                    )));
                }
            },
        }
        i = i + 1;
    }
    proof {
        assert(gv.skip(gv.len() as int) =~= Seq::<(CardName, Seq<VendorCard>)>::empty());
        assert(ready@ + Seq::<ComparedCard>::empty() =~= ready@);
        assert(requests@ + Seq::<LivePriceRequest>::empty() =~= requests@);
    }
    (ready, requests)
}

/// An identity with no entry in the reference index yields nothing:
/// dropping its bucket from the input changes neither the finished
/// comparisons nor the deferred requests of the run.
pub proof fn lemma_absent_identity_yields_nothing(
    groups: Seq<(CardName, Seq<VendorCard>)>,
    refs: Seq<(CardName, Vec<ScryfallCard>)>,
    external_price_check: bool,
    k: int,
)
    requires
        0 <= k < groups.len(),
        crate::grouping::bucket_index(refs, &groups[k].0) < 0,
    ensures
        all_ready_spec(groups.remove(k), refs, external_price_check) == all_ready_spec(
            groups,
            refs,
            external_price_check,
        ),
        all_requests_spec(groups.remove(k), refs, external_price_check) == all_requests_spec(
            groups,
            refs,
            external_price_check,
        ),
    decreases k,
{
    if k == 0 {
        assert(groups.remove(0) =~= groups.skip(1));
    } else {
        lemma_absent_identity_yields_nothing(
            groups.skip(1),
            refs,
            external_price_check,
            k - 1,
        );
        assert(groups.remove(k).skip(1) =~= groups.skip(1).remove(k - 1));
        assert(groups.remove(k)[0] == groups[0]);
        assert(groups.remove(k).len() > 0);
    }
}

// ---------------------------------------------------------------------
// Splitting buckets by finish
// ---------------------------------------------------------------------

/// The listings of one finish.
pub open spec fn foil_filter(cards: Seq<VendorCard>, want_foil: bool) -> Seq<VendorCard> {
    cards.filter(|c: VendorCard| c.foil == want_foil)
}

/// The buckets restricted to one finish, empty buckets dropped.
pub open spec fn split_groups_spec(
    g: Seq<(CardName, Seq<VendorCard>)>,
    want_foil: bool,
) -> Seq<(CardName, Seq<VendorCard>)>
    decreases g.len(),
{
    if g.len() == 0 {
        Seq::empty()
    } else {
        let rest = split_groups_spec(g.skip(1), want_foil);
        let b = foil_filter(g[0].1, want_foil);
        if b.len() > 0 {
            seq![(g[0].0, b)] + rest
        } else {
            rest
        }
    }
}

fn filter_by_foil(cards: &Vec<VendorCard>, want_foil: bool) -> (r: Vec<VendorCard>)
    ensures
        r@ == foil_filter(cards@, want_foil),
{
    reveal(Seq::filter);
    let mut r: Vec<VendorCard> = Vec::new();
    let mut i: usize = 0;
    while i < cards.len()
        invariant
            i <= cards@.len(),
            r@ == foil_filter(cards@.subrange(0, i as int), want_foil),
        decreases cards@.len() - i,
    {
        if cards[i].foil == want_foil {
            r.push(cards[i].clone());
        }
        proof {
            reveal(Seq::filter);
            let pre = cards@.subrange(0, i as int);
            let cur = cards@.subrange(0, i + 1 as int);
            assert(cur.drop_last() =~= pre);
            assert(cur.last() == cards@[i as int]);
        }
        i = i + 1;
    }
    assert(cards@.subrange(0, cards@.len() as int) =~= cards@);
    r
}

proof fn lemma_split_step(g: Seq<(CardName, Seq<VendorCard>)>, want_foil: bool, i: int)
    requires
        0 <= i < g.len(),
    ensures
        split_groups_spec(g.skip(i), want_foil) == (if foil_filter(g[i].1, want_foil).len() > 0 {
            seq![(g[i].0, foil_filter(g[i].1, want_foil))] + split_groups_spec(
                g.skip(i + 1),
                want_foil,
            )
        } else {
            split_groups_spec(g.skip(i + 1), want_foil)
        }),
{
    let t = g.skip(i);
    assert(t[0] == g[i]);
    assert(t.skip(1) =~= g.skip(i + 1));
}

/// The comparison engine of a run: the reference index, grouped by
/// identity, and the base address of the live-price service.
pub struct Comparer {
    pub mcm_cards: Vec<(CardName, Vec<ScryfallCard>)>,
    pub mtg_stock_url: String,
}

impl Comparer {
    pub fn new(mcm_cards: Vec<(CardName, Vec<ScryfallCard>)>, mtg_stock_url: String) -> (r:
        Comparer)
        ensures
            r.mcm_cards == mcm_cards,
            r.mtg_stock_url == mtg_stock_url,
    {
        Comparer { mcm_cards, mtg_stock_url }
    }

    /// Splits every bucket into its foil and non-foil listings,
    /// dropping the finishes a bucket does not carry.
    pub fn separete_foil_and_non_foil_cards(
        &self,
        vendor_cards: &Vec<(CardName, Vec<VendorCard>)>,
    ) -> (r: (Vec<(CardName, Vec<VendorCard>)>, Vec<(CardName, Vec<VendorCard>)>))
        ensures
            view_groups(r.0@) == split_groups_spec(view_groups(vendor_cards@), true),
            view_groups(r.1@) == split_groups_spec(view_groups(vendor_cards@), false),
            vendor_groups_wf(vendor_cards@) ==> vendor_groups_wf(r.0@) && vendor_groups_wf(r.1@),
    {
        let foil = split_one_finish(vendor_cards, true);
        let non_foil = split_one_finish(vendor_cards, false);
        (foil, non_foil)
    }
}

fn split_one_finish(vendor_cards: &Vec<(CardName, Vec<VendorCard>)>, want_foil: bool) -> (r: Vec<
    (CardName, Vec<VendorCard>),
>)
    ensures
        view_groups(r@) == split_groups_spec(view_groups(vendor_cards@), want_foil),
        vendor_groups_wf(vendor_cards@) ==> vendor_groups_wf(r@),
{
    let ghost gv = view_groups(vendor_cards@);
    let mut r: Vec<(CardName, Vec<VendorCard>)> = Vec::new();
    proof {
        assert(gv.skip(0) =~= gv);
        assert(view_groups(r@) + split_groups_spec(gv, want_foil) =~= split_groups_spec(
            gv,
            want_foil,
        ));
    }
    let mut i: usize = 0;
    while i < vendor_cards.len()
        invariant
            gv == view_groups(vendor_cards@),
            gv.len() == vendor_cards@.len(),
            i <= gv.len(),
            split_groups_spec(gv, want_foil) == view_groups(r@) + split_groups_spec(
                gv.skip(i as int),
                want_foil,
            ),
            vendor_groups_wf(vendor_cards@) ==> vendor_groups_wf(r@),
        decreases gv.len() - i,
    {
        proof {
            lemma_split_step(gv, want_foil, i as int);
            assert(gv[i as int] == (vendor_cards@[i as int].0, vendor_cards@[i as int].1@));
        }
        let b = filter_by_foil(&vendor_cards[i].1, want_foil);
        if b.len() > 0 {
            let ghost old_r = r@;
            let key = vendor_cards[i].0.clone();
            r.push((key, b));
            proof {
                assert(view_groups(r@) =~= view_groups(old_r).push(
                    (gv[i as int].0, foil_filter(gv[i as int].1, want_foil)),
                ));
                assert(view_groups(r@) + split_groups_spec(gv.skip(i + 1 as int), want_foil)
                    =~= view_groups(old_r) + (seq![
                    (gv[i as int].0, foil_filter(gv[i as int].1, want_foil)),
                ] + split_groups_spec(gv.skip(i + 1 as int), want_foil)));
                if vendor_groups_wf(vendor_cards@) {
                    assert forall|a: int, l: int|
                        0 <= a < r@.len() && 0 <= l < r@[a].1@.len() implies (
                    #[trigger] r@[a].1@[l]).wf() by {
                        if a == r@.len() - 1 {
                            let x = r@[a].1@[l];
                            assert(foil_filter(gv[i as int].1, want_foil).contains(x)) by {
                                assert(r@[a].1@ == foil_filter(gv[i as int].1, want_foil));
                            }
                            gv[i as int].1.lemma_filter_contains_rev(
                                |c: VendorCard| c.foil == want_foil,
                                x,
                            );
                            let j = choose|j: int|
                                0 <= j < gv[i as int].1.len() && gv[i as int].1[j] == x;
                            assert(vendor_cards@[i as int].1@[j].wf());
                        } else {
                            assert(r@[a] == old_r[a]);
                        }
                    }
                    assert(vendor_groups_wf(r@));
                }
            }
        }
        i = i + 1;
    }
    proof {
        assert(gv.skip(gv.len() as int) =~= Seq::<(CardName, Seq<VendorCard>)>::empty());
        assert(view_groups(r@) + Seq::<(CardName, Seq<VendorCard>)>::empty() =~= view_groups(r@));
    }
    r
}

// ---------------------------------------------------------------------
// Grouping emitted comparisons by identity
// ---------------------------------------------------------------------

/// The number of records held across all buckets.
pub open spec fn buckets_total<T>(g: Seq<(CardName, Vec<T>)>) -> nat
    decreases g.len(),
{
    if g.len() == 0 {
        0
    } else {
        g[0].1@.len() + buckets_total(g.skip(1))
    }
}

/// Every comparison sits in the bucket of its vendor listing's
/// identity.
pub open spec fn compared_buckets_match(g: Seq<(CardName, Vec<ComparedCard>)>) -> bool {
    forall|i: int, l: int|
        0 <= i < g.len() && 0 <= l < (#[trigger] g[i]).1@.len() ==> crate::cardname::name_eq(
            &g[i].0,
            &(#[trigger] g[i].1@[l]).vendor_card.name,
        )
}

pub proof fn lemma_total_update<T>(a: Seq<(CardName, Vec<T>)>, b: Seq<(CardName, Vec<T>)>, k: int)
    requires
        a.len() == b.len(),
        0 <= k < a.len(),
        forall|j: int| 0 <= j < a.len() && j != k ==> (#[trigger] b[j]).1@.len() == a[j].1@.len(),
        b[k].1@.len() == a[k].1@.len() + 1,
    ensures
        buckets_total(b) == buckets_total(a) + 1,
    decreases a.len(),
{
    if k == 0 {
        assert(forall|j: int|
            0 <= j < a.skip(1).len() ==> (#[trigger] b.skip(1)[j]).1@.len() == a.skip(
                1,
            )[j].1@.len());
        lemma_total_same(a.skip(1), b.skip(1));
    } else {
        lemma_total_update(a.skip(1), b.skip(1), k - 1);
        assert(b[0].1@.len() == a[0].1@.len());
    }
}

pub proof fn lemma_total_same<T>(a: Seq<(CardName, Vec<T>)>, b: Seq<(CardName, Vec<T>)>)
    requires
        a.len() == b.len(),
        forall|j: int| 0 <= j < a.len() ==> (#[trigger] b[j]).1@.len() == a[j].1@.len(),
    ensures
        buckets_total(b) == buckets_total(a),
    decreases a.len(),
{
    if a.len() > 0 {
        assert(forall|j: int|
            0 <= j < a.skip(1).len() ==> (#[trigger] b.skip(1)[j]).1@.len() == a.skip(
                1,
            )[j].1@.len());
        lemma_total_same(a.skip(1), b.skip(1));
    }
}

pub proof fn lemma_total_push<T>(a: Seq<(CardName, Vec<T>)>, p: (CardName, Vec<T>))
    ensures
        buckets_total(a.push(p)) == buckets_total(a) + p.1@.len(),
    decreases a.len(),
{
    if a.len() == 0 {
        assert(a.push(p).skip(1) =~= Seq::<(CardName, Vec<T>)>::empty());
        assert(a.push(p)[0] == p);
        assert(buckets_total(a.push(p)) == p.1@.len() + buckets_total(a.push(p).skip(1)));
        assert(buckets_total(Seq::<(CardName, Vec<T>)>::empty()) == 0);
    } else {
        assert(a.push(p)[0] == a[0]);
        assert(a.push(p).skip(1) =~= a.skip(1).push(p));
        lemma_total_push(a.skip(1), p);
        assert(buckets_total(a.push(p)) == a[0].1@.len() + buckets_total(a.push(p).skip(1)));
        assert(buckets_total(a) == a[0].1@.len() + buckets_total(a.skip(1)));
    }
}

/// The records of all buckets, bucket by bucket.
pub open spec fn buckets_flatten<T>(g: Seq<(CardName, Vec<T>)>) -> Seq<T>
    decreases g.len(),
{
    if g.len() == 0 {
        Seq::empty()
    } else {
        g[0].1@ + buckets_flatten(g.skip(1))
    }
}

pub proof fn lemma_flatten_same<T>(a: Seq<(CardName, Vec<T>)>, b: Seq<(CardName, Vec<T>)>)
    requires
        a.len() == b.len(),
        forall|j: int| 0 <= j < a.len() ==> (#[trigger] b[j]).1 == a[j].1,
    ensures
        buckets_flatten(b) == buckets_flatten(a),
    decreases a.len(),
{
    if a.len() > 0 {
        assert(forall|j: int|
            0 <= j < a.skip(1).len() ==> (#[trigger] b.skip(1)[j]).1 == a.skip(1)[j].1);
        lemma_flatten_same(a.skip(1), b.skip(1));
        assert(b[0].1 == a[0].1);
    }
}

pub proof fn lemma_flatten_push<T>(a: Seq<(CardName, Vec<T>)>, p: (CardName, Vec<T>))
    ensures
        buckets_flatten(a.push(p)) == buckets_flatten(a) + p.1@,
    decreases a.len(),
{
    if a.len() == 0 {
        assert(a.push(p).skip(1) =~= Seq::<(CardName, Vec<T>)>::empty());
        assert(a.push(p)[0] == p);
        assert(buckets_flatten(Seq::<(CardName, Vec<T>)>::empty()) == Seq::<T>::empty());
        assert(buckets_flatten(a.push(p)) == p.1@ + Seq::<T>::empty());
        assert(p.1@ + Seq::<T>::empty() =~= Seq::<T>::empty() + p.1@);
    } else {
        assert(a.push(p)[0] == a[0]);
        assert(a.push(p).skip(1) =~= a.skip(1).push(p));
        lemma_flatten_push(a.skip(1), p);
        assert(a[0].1@ + (buckets_flatten(a.skip(1)) + p.1@) =~= (a[0].1@ + buckets_flatten(
            a.skip(1),
        )) + p.1@);
    }
}

/// Appending one record to one bucket adds exactly that record to the
/// whole collection.
pub proof fn lemma_flatten_update_push<T>(
    a: Seq<(CardName, Vec<T>)>,
    b: Seq<(CardName, Vec<T>)>,
    k: int,
    item: T,
)
    requires
        a.len() == b.len(),
        0 <= k < a.len(),
        forall|j: int| 0 <= j < a.len() && j != k ==> #[trigger] b[j] == a[j],
        b[k].1@ == a[k].1@.push(item),
    ensures
        buckets_flatten(b).to_multiset() == buckets_flatten(a).to_multiset().insert(item),
    decreases a.len(),
{
    vstd::seq_lib::lemma_multiset_commutative(b[0].1@, buckets_flatten(b.skip(1)));
    vstd::seq_lib::lemma_multiset_commutative(a[0].1@, buckets_flatten(a.skip(1)));
    if k == 0 {
        assert(forall|j: int|
            0 <= j < a.skip(1).len() ==> (#[trigger] b.skip(1)[j]).1 == a.skip(1)[j].1);
        lemma_flatten_same(a.skip(1), b.skip(1));
        assert(b[0].1@.to_multiset() =~= a[0].1@.to_multiset().insert(item)) by {
            a[0].1@.to_multiset_ensures();
        }
        assert(buckets_flatten(b).to_multiset() =~= buckets_flatten(a).to_multiset().insert(
            item,
        ));
    } else {
        lemma_flatten_update_push(a.skip(1), b.skip(1), k - 1, item);
        assert(b[0] == a[0]);
        assert(buckets_flatten(b).to_multiset() =~= buckets_flatten(a).to_multiset().insert(
            item,
        ));
    }
}

/// Groups emitted comparisons by the identity of their vendor
/// listing: keys stay pairwise distinct, every comparison lands in the
/// bucket of its identity, and exactly the given comparisons are
/// present.
pub fn group_results(results: &Vec<ComparedCard>) -> (g: Vec<(CardName, Vec<ComparedCard>)>)
    ensures
        crate::grouping::buckets_wf(g@),
        compared_buckets_match(g@),
        buckets_total(g@) == results@.len(),
        buckets_flatten(g@).to_multiset() == results@.to_multiset(),
{
    let mut g: Vec<(CardName, Vec<ComparedCard>)> = Vec::new();
    let mut i: usize = 0;
    proof {
        assert(buckets_flatten(g@) =~= results@.subrange(0, 0));
    }
    while i < results.len()
        invariant
            i <= results@.len(),
            crate::grouping::buckets_wf(g@),
            compared_buckets_match(g@),
            buckets_total(g@) == i,
            buckets_flatten(g@).to_multiset() == results@.subrange(0, i as int).to_multiset(),
        decreases results@.len() - i,
    {
        proof {
            let pre = results@.subrange(0, i as int);
            let cur = results@.subrange(0, i + 1 as int);
            assert(cur =~= pre.push(results@[i as int]));
            pre.to_multiset_ensures();
        }
        let ghost g0 = g@;
        let item = results[i].clone();
        let key = item.vendor_card.name.clone();
        proof {
            crate::grouping::lemma_bucket_index_char(g@, &key);
        }
        crate::grouping::group_insert(&mut g, key, item);
        proof {
            let bi = crate::grouping::bucket_index(g0, &results@[i as int].vendor_card.name);
            if bi >= 0 {
                lemma_total_update(g0, g@, bi);
                lemma_flatten_update_push(g0, g@, bi, results@[i as int]);
                assert(compared_buckets_match(g@)) by {
                    assert forall|a: int, l: int|
                        0 <= a < g@.len() && 0 <= l < (#[trigger] g@[a]).1@.len() implies crate::cardname::name_eq(
                        &g@[a].0,
                        &(#[trigger] g@[a].1@[l]).vendor_card.name,
                    ) by {
                        if a == bi {
                            assert(g@[a].0 == g0[a].0);
                            if l < g0[a].1@.len() {
                                assert(g@[a].1@[l] == g0[a].1@[l]);
                            } else {
                                assert(g@[a].1@[l] == results@[i as int]);
                            }
                        } else {
                            assert(g@[a] == g0[a]);
                        }
                    }
                }
            } else {
                assert(g@.drop_last() =~= g0);
                assert(g@ =~= g0.push(g@.last()));
                lemma_total_push(g0, g@.last());
                lemma_flatten_push(g0, g@.last());
                assert(g@.last().1@.len() == 1);
                assert(buckets_flatten(g@).to_multiset() =~= buckets_flatten(g0).to_multiset().insert(
                    results@[i as int],
                )) by {
                    vstd::seq_lib::lemma_multiset_commutative(buckets_flatten(g0), g@.last().1@);
                    assert(g@.last().1@ =~= Seq::<ComparedCard>::empty().push(results@[i as int]));
                    Seq::<ComparedCard>::empty().to_multiset_ensures();
                    assert(g@.last().1@.to_multiset() =~= Multiset::<ComparedCard>::empty().insert(
                        results@[i as int],
                    ));
                }
                assert(compared_buckets_match(g@)) by {
                    assert forall|a: int, l: int|
                        0 <= a < g@.len() && 0 <= l < (#[trigger] g@[a]).1@.len() implies crate::cardname::name_eq(
                        &g@[a].0,
                        &(#[trigger] g@[a].1@[l]).vendor_card.name,
                    ) by {
                        if a < g0.len() {
                            assert(g@[a] == g0[a]);
                        } else {
                            assert(g@[a].1@[l] == results@[i as int]);
                        }
                    }
                }
            }
        }
        i = i + 1;
    }
    proof {
        assert(results@.subrange(0, results@.len() as int) =~= results@);
    }
    g
}

// ---------------------------------------------------------------------
// The cheapest printing of an identity
// ---------------------------------------------------------------------

/// Index of the reference record with the cheapest price for the
/// finish, by canonical value, earliest on ties; -1 when no record
/// carries that price. Callers use this only where no match pinned a
/// specific printing: a matched record's price always wins over the
/// globally cheapest one.
pub open spec fn cheapest_index(cards: Seq<ScryfallCard>, foil: bool) -> int
    decreases cards.len(),
{
    if cards.len() == 0 {
        -1
    } else {
        let rest = cheapest_index(cards.skip(1), foil);
        match reference_price_spec(cards[0], foil) {
            Some(p) => {
                if rest < 0 {
                    0
                } else {
                    let q = reference_price_spec(cards[rest + 1], foil)->0;
                    if crate::price::canonical_value_spec(p) <= crate::price::canonical_value_spec(
                        q,
                    ) {
                        0
                    } else {
                        rest + 1
                    }
                }
            },
            None => {
                if rest < 0 {
                    -1
                } else {
                    rest + 1
                }
            },
        }
    }
}

pub proof fn lemma_cheapest_index_char(cards: Seq<ScryfallCard>, foil: bool)
    ensures
        cheapest_index(cards, foil) == -1 ==> forall|j: int|
            0 <= j < cards.len() ==> reference_price_spec(#[trigger] cards[j], foil) is None,
        cheapest_index(cards, foil) >= 0 ==> {
            let m = cheapest_index(cards, foil);
            &&& m < cards.len()
            &&& reference_price_spec(cards[m], foil) is Some
            &&& forall|j: int|
                0 <= j < cards.len() && reference_price_spec(#[trigger] cards[j], foil) is Some
                    ==> crate::price::canonical_value_spec(reference_price_spec(cards[m], foil)->0)
                    <= crate::price::canonical_value_spec(reference_price_spec(cards[j], foil)->0)
            &&& forall|j: int|
                0 <= j < m && reference_price_spec(#[trigger] cards[j], foil) is Some
                    ==> crate::price::canonical_value_spec(reference_price_spec(cards[j], foil)->0)
                    > crate::price::canonical_value_spec(reference_price_spec(cards[m], foil)->0)
        },
    decreases cards.len(),
{
    if cards.len() > 0 {
        lemma_cheapest_index_char(cards.skip(1), foil);
        assert(forall|j: int| 1 <= j < cards.len() ==> cards.skip(1)[j - 1] == #[trigger] cards[j]);
    }
}

/// The cheapest non-foil reference price of an identity's printings.
pub fn get_cheapest_scryfall_card(scryfall_cards: &Vec<ScryfallCard>) -> (r: Option<Price>)
    ensures
        r is Some <==> cheapest_index(scryfall_cards@, false) >= 0,
        r is Some ==> r->0 == reference_price_spec(
            scryfall_cards@[cheapest_index(scryfall_cards@, false)],
            false,
        )->0,
{
    cheapest_price_for(scryfall_cards, false)
}

/// The cheapest foil reference price of an identity's printings.
pub fn get_cheapest_foil_scryfall_card(scryfall_cards: &Vec<ScryfallCard>) -> (r: Option<Price>)
    ensures
        r is Some <==> cheapest_index(scryfall_cards@, true) >= 0,
        r is Some ==> r->0 == reference_price_spec(
            scryfall_cards@[cheapest_index(scryfall_cards@, true)],
            true,
        )->0,
{
    cheapest_price_for(scryfall_cards, true)
}

fn cheapest_price_for(cards: &Vec<ScryfallCard>, foil: bool) -> (r: Option<Price>)
    ensures
        r is Some <==> cheapest_index(cards@, foil) >= 0,
        r is Some ==> r->0 == reference_price_spec(cards@[cheapest_index(cards@, foil)], foil)->0,
{
    proof {
        lemma_cheapest_index_char(cards@, foil);
    }
    let mut best: Option<(usize, Price)> = None;
    let mut i: usize = 0;
    while i < cards.len()
        invariant
            i <= cards@.len(),
            cheapest_index(cards@, foil) == -1 ==> forall|j: int|
                0 <= j < cards@.len() ==> reference_price_spec(#[trigger] cards@[j], foil) is None,
            cheapest_index(cards@, foil) >= 0 ==> {
                let m = cheapest_index(cards@, foil);
                &&& m < cards@.len()
                &&& reference_price_spec(cards@[m], foil) is Some
                &&& forall|j: int|
                    0 <= j < cards@.len() && reference_price_spec(
                        #[trigger] cards@[j],
                        foil,
                    ) is Some ==> crate::price::canonical_value_spec(
                        reference_price_spec(cards@[m], foil)->0,
                    ) <= crate::price::canonical_value_spec(
                        reference_price_spec(cards@[j], foil)->0,
                    )
                &&& forall|j: int|
                    0 <= j < m && reference_price_spec(#[trigger] cards@[j], foil) is Some
                        ==> crate::price::canonical_value_spec(
                        reference_price_spec(cards@[j], foil)->0,
                    ) > crate::price::canonical_value_spec(
                        reference_price_spec(cards@[m], foil)->0,
                    )
            },
            match best {
                None => forall|j: int|
                    0 <= j < i ==> reference_price_spec(#[trigger] cards@[j], foil) is None,
                Some((b, p)) => {
                    &&& b < i
                    &&& reference_price_spec(cards@[b as int], foil) == Some(p)
                    &&& forall|j: int|
                        0 <= j < i && reference_price_spec(#[trigger] cards@[j], foil) is Some
                            ==> crate::price::canonical_value_spec(p)
                            <= crate::price::canonical_value_spec(
                            reference_price_spec(cards@[j], foil)->0,
                        )
                    &&& forall|j: int|
                        0 <= j < b && reference_price_spec(#[trigger] cards@[j], foil) is Some
                            ==> crate::price::canonical_value_spec(
                            reference_price_spec(cards@[j], foil)->0,
                        ) > crate::price::canonical_value_spec(p)
                },
            },
        decreases cards@.len() - i,
    {
        match select_reference_price(&cards[i], foil) {
            Some(p) => {
                match best {
                    None => {
                        best = Some((i, p));
                    },
                    Some((_, q)) => {
                        if p < q {
                            best = Some((i, p));
                        }
                    },
                }
            },
            None => {},
        }
        i = i + 1;
    }
    match best {
        None => {
            proof {
                if cheapest_index(cards@, foil) >= 0 {
                    let m = cheapest_index(cards@, foil);
                    assert(reference_price_spec(cards@[m], foil) is None);
                }
            }
            None
        },
        Some((b, p)) => {
            proof {
                let m = cheapest_index(cards@, foil);
                assert(m >= 0);
                if (b as int) < m {
                    assert(crate::price::canonical_value_spec(p)
                        > crate::price::canonical_value_spec(
                        reference_price_spec(cards@[m], foil)->0,
                    ));
                    assert(false);
                }
                if (b as int) > m {
                    assert(crate::price::canonical_value_spec(
                        reference_price_spec(cards@[m], foil)->0,
                    ) > crate::price::canonical_value_spec(p));
                    assert(false);
                }
            }
            Some(p)
        },
    }
}

/// With external price checking off, planning never defers to the
/// live fallback: no listing asks for a network call.
pub proof fn lemma_no_requests_when_disabled(
    cards: Seq<VendorCard>,
    refs: Seq<ScryfallCard>,
)
    ensures
        bucket_requests_spec(cards, refs, false) == Seq::<LivePriceRequest>::empty(),
    decreases cards.len(),
{
    if cards.len() > 0 {
        lemma_no_requests_when_disabled(cards.skip(1), refs);
        match plan_spec(cards[0], refs, false) {
            ComparisonStep::NeedsLivePrice(m) => {
                assert(false);
            },
            _ => {},
        }
        assert(bucket_requests_spec(cards, refs, false) =~= Seq::<LivePriceRequest>::empty());
    }
}

/// The same over a whole run: a disabled fallback is never called.
pub proof fn lemma_run_offline_when_disabled(
    groups: Seq<(CardName, Seq<VendorCard>)>,
    refs: Seq<(CardName, Vec<ScryfallCard>)>,
)
    ensures
        all_requests_spec(groups, refs, false) == Seq::<LivePriceRequest>::empty(),
    decreases groups.len(),
{
    if groups.len() > 0 {
        lemma_run_offline_when_disabled(groups.skip(1), refs);
        let bi = crate::grouping::bucket_index(refs, &groups[0].0);
        if bi >= 0 {
            lemma_no_requests_when_disabled(groups[0].1, refs[bi].1@);
        }
        assert(all_requests_spec(groups, refs, false) =~= Seq::<LivePriceRequest>::empty());
    }
}

impl Comparer {
    /// Plans a whole run: the buckets are split by finish, the
    /// non-foil listings planned first, then the foil ones, each
    /// against the reference index. The caller performs the deferred
    /// live-price calls and completes the run.
    pub fn compare_vendor_cards_plan(
        &self,
        vendor_cards: &Vec<(CardName, Vec<VendorCard>)>,
        external_price_check: bool,
    ) -> (r: (Vec<ComparedCard>, Vec<LivePriceRequest>))
        requires
            vendor_groups_wf(vendor_cards@),
            ref_groups_wf(self.mcm_cards@),
        ensures
            r.0@ == all_ready_spec(
                split_groups_spec(view_groups(vendor_cards@), false),
                self.mcm_cards@,
                external_price_check,
            ) + all_ready_spec(
                split_groups_spec(view_groups(vendor_cards@), true),
                self.mcm_cards@,
                external_price_check,
            ),
            r.1@ == all_requests_spec(
                split_groups_spec(view_groups(vendor_cards@), false),
                self.mcm_cards@,
                external_price_check,
            ) + all_requests_spec(
                split_groups_spec(view_groups(vendor_cards@), true),
                self.mcm_cards@,
                external_price_check,
            ),
    {
        let (foil, non_foil) = self.separete_foil_and_non_foil_cards(vendor_cards);
        let (mut ready, mut requests) = plan_all(
            &non_foil,
            &self.mcm_cards,
            external_price_check,
        );
        let (mut ready_foil, mut requests_foil) = plan_all(
            &foil,
            &self.mcm_cards,
            external_price_check,
        );
        ready.append(&mut ready_foil);
        requests.append(&mut requests_foil);
        (ready, requests)
    }
}

} // verus!
