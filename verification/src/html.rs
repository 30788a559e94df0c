//! The report boundary: the fixed page frame, and the nice-price
//! filter that picks which comparisons the report shows. Rendering
//! rows and writing files happen outside; the tiered threshold rule
//! is the part worth pinning down.
use vstd::prelude::*;

use crate::cardname::CardName;
use crate::compared_card::ComparedCard;
use crate::currency::Currency;
use crate::price::convert_amount_spec;
use crate::price::Price;
use crate::price::MAX_CONVERT_INPUT;

verus! {

pub open spec fn html_header_spec() -> Seq<char> {
    "<!DOCTYPE html>\n<html lang=\"en\">\n<head>\n<meta charset=\"UTF-8\">\n<title>Tradable cards</title>\n</head>\n<body>\n<h1>Tradable cards</h1>\n<table id=\"card-table\">\n<tbody>\n"@
}

/// The fixed opening of a report page.
pub fn generate_html_header() -> (r: String)
    ensures
        r@ == html_header_spec(),
{
    String::from_str(
        "<!DOCTYPE html>\n<html lang=\"en\">\n<head>\n<meta charset=\"UTF-8\">\n<title>Tradable cards</title>\n</head>\n<body>\n<h1>Tradable cards</h1>\n<table id=\"card-table\">\n<tbody>\n",
    )
}

pub open spec fn html_footer_spec() -> Seq<char> {
    "</tbody></table>\n<div class='pagination'></div>\n</body>\n</html>\n"@
}

/// The fixed closing of a report page.
pub fn generate_html_footer() -> (r: String)
    ensures
        r@ == html_footer_spec(),
{
    String::from_str("</tbody></table>\n<div class='pagination'></div>\n</body>\n</html>\n")
}

/// The tiered nice-price rule on one comparison: a vendor price of at
/// most ten kronor must not be above the reference at all; up to
/// thirty kronor it may be at most five kronor above; above that the
/// configured threshold decides.
pub open spec fn nice_price_spec(c: ComparedCard, nice_price_limit: int) -> bool {
    let sek = convert_amount_spec(
        c.vendor_card.price.amount as int,
        c.vendor_card.price.currency,
        Currency::SEK,
    );
    let diff = c.price_difference_to_cheapest_vendor_card as int;
    if sek <= 10 * 1000000000 {
        diff <= 0
    } else if sek <= 30 * 1000000000 {
        diff <= 5
    } else {
        diff <= nice_price_limit
    }
}

fn is_nice_price(c: &ComparedCard, nice_price_limit: i32) -> (r: bool)
    requires
        c.vendor_card.price.amount <= MAX_CONVERT_INPUT,
    ensures
        r == nice_price_spec(*c, nice_price_limit as int),
{
    let sek = c.vendor_card.price.convert_to(Currency::SEK);
    let diff = c.price_difference_to_cheapest_vendor_card;
    if sek.amount <= 10000000000 {
        diff <= 0
    } else if sek.amount <= 30000000000 {
        diff <= 5
    } else {
        diff <= nice_price_limit
    }
}

/// The nice-price comparisons of one bucket, in bucket order.
pub open spec fn nice_bucket_spec(b: Seq<ComparedCard>, limit: int) -> Seq<ComparedCard> {
    b.filter(|c: ComparedCard| nice_price_spec(c, limit))
}

/// The nice-price comparisons of a whole run, bucket by bucket.
pub open spec fn nice_all_spec(
    groups: Seq<(CardName, Vec<ComparedCard>)>,
    limit: int,
) -> Seq<ComparedCard>
    decreases groups.len(),
{
    if groups.len() == 0 {
        Seq::empty()
    } else {
        nice_bucket_spec(groups[0].1@, limit) + nice_all_spec(groups.skip(1), limit)
    }
}

/// Every compared price of every bucket is small enough to convert.
pub open spec fn compared_groups_bounded(g: Seq<(CardName, Vec<ComparedCard>)>) -> bool {
    forall|i: int, l: int|
        0 <= i < g.len() && 0 <= l < (#[trigger] g[i]).1@.len() ==> (
        #[trigger] g[i].1@[l]).vendor_card.price.amount <= MAX_CONVERT_INPUT
}

proof fn lemma_nice_all_step(groups: Seq<(CardName, Vec<ComparedCard>)>, limit: int, i: int)
    requires
        0 <= i < groups.len(),
    ensures
        nice_all_spec(groups.skip(i), limit) == nice_bucket_spec(groups[i].1@, limit)
            + nice_all_spec(groups.skip(i + 1), limit),
{
    let t = groups.skip(i);
    assert(t[0] == groups[i]);
    assert(t.skip(1) =~= groups.skip(i + 1));
}

/// Picks the comparisons the report shows, per the tiered rule.
pub fn filter_nice_price_cards(
    cards: &Vec<(CardName, Vec<ComparedCard>)>,
    nice_price_limit: i32,
) -> (r: Vec<ComparedCard>)
    requires
        compared_groups_bounded(cards@),
    ensures
        r@ == nice_all_spec(cards@, nice_price_limit as int),
{
    let mut r: Vec<ComparedCard> = Vec::new();
    proof {
        assert(cards@.skip(0) =~= cards@);
        assert(Seq::<ComparedCard>::empty() + nice_all_spec(cards@, nice_price_limit as int)
            =~= nice_all_spec(cards@, nice_price_limit as int));
    }
    let mut i: usize = 0;
    while i < cards.len()
        invariant
            compared_groups_bounded(cards@),
            i <= cards@.len(),
            nice_all_spec(cards@, nice_price_limit as int) == r@ + nice_all_spec(
                cards@.skip(i as int),
                nice_price_limit as int,
            ),
        decreases cards@.len() - i,
    {
        proof {
            lemma_nice_all_step(cards@, nice_price_limit as int, i as int);
            reveal(Seq::filter);
        }
        let bucket = &cards[i].1;
        let ghost before = r@;
        let mut l: usize = 0;
        while l < bucket.len()
            invariant
                compared_groups_bounded(cards@),
                0 <= i < cards@.len(),
                bucket == &cards@[i as int].1,
                l <= bucket@.len(),
                r@ == before + nice_bucket_spec(
                    bucket@.subrange(0, l as int),
                    nice_price_limit as int,
                ),
            decreases bucket@.len() - l,
        {
            proof {
                assert(cards@[i as int].1@[l as int].vendor_card.price.amount
                    <= MAX_CONVERT_INPUT);
            }
            if is_nice_price(&bucket[l], nice_price_limit) {
                r.push(bucket[l].clone());
            }
            proof {
                reveal(Seq::filter);
                let pre = bucket@.subrange(0, l as int);
                let cur = bucket@.subrange(0, l + 1 as int);
                assert(cur.drop_last() =~= pre);
                assert(cur.last() == bucket@[l as int]);
            }
            l = l + 1;
        }
        proof {
            assert(bucket@.subrange(0, bucket@.len() as int) =~= bucket@);
            assert((before + nice_bucket_spec(bucket@, nice_price_limit as int)) + nice_all_spec(
                cards@.skip(i + 1 as int),
                nice_price_limit as int,
            ) =~= before + (nice_bucket_spec(bucket@, nice_price_limit as int) + nice_all_spec(
                cards@.skip(i + 1 as int),
                nice_price_limit as int,
            )));
        }
        i = i + 1;
    }
    proof {
        assert(cards@.skip(cards@.len() as int) =~= Seq::<(CardName, Vec<ComparedCard>)>::empty());
        assert(r@ + Seq::<ComparedCard>::empty() =~= r@);
    }
    r
}

} // verus!
