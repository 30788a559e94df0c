//! Matching the user's own cards against what vendors currently buy:
//! a personal card is tradable when a vendor lists the same card (same
//! identity, finish and set) and still has room in its stock; personal
//! cards no vendor lists are handed back so the caller can search the
//! vendor's site for them. Also the conversion of an exported
//! collection list into personal cards.
use vstd::prelude::*;

use crate::cardname::name_eq;
use crate::cardname::valid_card_name;
use crate::cardname::CardName;
use crate::comparer::vendor_groups_wf;
use crate::currency::Currency;
use crate::delver_lense_card::DelverLenseCard;
use crate::grouping::bucket_index;
use crate::personalcard::PersonalCard;
use crate::price::Price;
use crate::price::MAX_PRICE_AMOUNT;
use crate::price::NANOS_PER_UNIT;
use crate::rarity::MagicColour;
use crate::rarity::Rarity;
use crate::setname::set_eq;
use crate::setname::valid_set_name;
use crate::setname::SetName;
use crate::text::all_digits;
use crate::text::chars_eq_str;
use crate::text::digits_val;
use crate::text::remove_all_chars;
use crate::text::remove_all_spec;
use crate::text::str_chars;
use crate::tradable_card::TradeableCard;
use crate::vendorcard::VendorCard;

verus! {

// ---------------------------------------------------------------------
// Tradable cards
// ---------------------------------------------------------------------

/// A vendor listing offers the personal card: same identity, same
/// finish, same set.
pub open spec fn vendor_match(v: VendorCard, p: PersonalCard) -> bool {
    name_eq(&v.name, &p.name) && v.foil == p.foil && set_eq(&v.set, &p.set)
}

/// Index of the first listing of a bucket offering the personal card,
/// or -1.
pub open spec fn vendor_match_index(bucket: Seq<VendorCard>, p: PersonalCard) -> int
    decreases bucket.len(),
{
    if bucket.len() == 0 {
        -1
    } else if vendor_match(bucket[0], p) {
        0
    } else {
        let r = vendor_match_index(bucket.skip(1), p);
        if r < 0 {
            -1
        } else {
            r + 1
        }
    }
}

pub proof fn lemma_vendor_match_index_char(bucket: Seq<VendorCard>, p: PersonalCard)
    ensures
        vendor_match_index(bucket, p) == -1 ==> forall|i: int|
            0 <= i < bucket.len() ==> !vendor_match(#[trigger] bucket[i], p),
        vendor_match_index(bucket, p) >= 0 ==> vendor_match_index(bucket, p) < bucket.len()
            && vendor_match(bucket[vendor_match_index(bucket, p)], p) && forall|i: int|
            0 <= i < vendor_match_index(bucket, p) ==> !vendor_match(#[trigger] bucket[i], p),
    decreases bucket.len(),
{
    if bucket.len() > 0 && !vendor_match(bucket[0], p) {
        lemma_vendor_match_index_char(bucket.skip(1), p);
        assert(forall|i: int|
            1 <= i < bucket.len() ==> bucket.skip(1)[i - 1] == #[trigger] bucket[i]);
    }
}

/// The trade offer built from a matched pair: the vendor's card data
/// and buy-in price, the collection's own price, rarity and colour.
pub open spec fn tradeable_of(v: VendorCard, p: PersonalCard) -> TradeableCard {
    TradeableCard {
        name: v.name,
        set: v.set,
        foil: p.foil,
        prerelease: v.prerelease,
        tradeable_vendor: v.vendor,
        trade_in_price: Price {
            amount: (v.trade_in_price * NANOS_PER_UNIT) as u64,
            currency: Currency::SEK,
        },
        mcm_price: p.price,
        cards_to_trade: p.count,
        card_ammount_requested_by_vendor: (v.max_stock - v.current_stock) as i8,
        image_url: v.image_url,
        color: p.color,
        rarity: p.rarity,
    }
}

/// The trade offers of a run, in collection order: one per personal
/// card that a vendor lists with room in its stock.
pub open spec fn tradable_spec(
    personal: Seq<PersonalCard>,
    groups: Seq<(CardName, Vec<VendorCard>)>,
) -> Seq<TradeableCard>
    decreases personal.len(),
{
    if personal.len() == 0 {
        Seq::empty()
    } else {
        let rest = tradable_spec(personal.skip(1), groups);
        let p = personal[0];
        let bi = bucket_index(groups, &p.name);
        if bi >= 0 && vendor_match_index(groups[bi].1@, p) >= 0 {
            let v = groups[bi].1@[vendor_match_index(groups[bi].1@, p)];
            if v.current_stock < v.max_stock {
                seq![tradeable_of(v, p)] + rest
            } else {
                rest
            }
        } else {
            rest
        }
    }
}

/// The personal cards no vendor lists at all, in collection order;
/// a card a vendor lists but has no room for is neither traded nor
/// handed back.
pub open spec fn leftover_spec(
    personal: Seq<PersonalCard>,
    groups: Seq<(CardName, Vec<VendorCard>)>,
) -> Seq<PersonalCard>
    decreases personal.len(),
{
    if personal.len() == 0 {
        Seq::empty()
    } else {
        let rest = leftover_spec(personal.skip(1), groups);
        let p = personal[0];
        let bi = bucket_index(groups, &p.name);
        if bi >= 0 && vendor_match_index(groups[bi].1@, p) >= 0 {
            rest
        } else {
            seq![p] + rest
        }
    }
}

proof fn lemma_tradable_step(
    personal: Seq<PersonalCard>,
    groups: Seq<(CardName, Vec<VendorCard>)>,
    i: int,
)
    requires
        0 <= i < personal.len(),
    ensures
        ({
            let p = personal[i];
            let bi = bucket_index(groups, &p.name);
            let rest = tradable_spec(personal.skip(i + 1), groups);
            let lrest = leftover_spec(personal.skip(i + 1), groups);
            &&& tradable_spec(personal.skip(i), groups) == (if bi >= 0 && vendor_match_index(
                groups[bi].1@,
                p,
            ) >= 0 {
                let v = groups[bi].1@[vendor_match_index(groups[bi].1@, p)];
                if v.current_stock < v.max_stock {
                    seq![tradeable_of(v, p)] + rest
                } else {
                    rest
                }
            } else {
                rest
            })
            &&& leftover_spec(personal.skip(i), groups) == (if bi >= 0 && vendor_match_index(
                groups[bi].1@,
                p,
            ) >= 0 {
                lrest
            } else {
                seq![p] + lrest
            })
        }),
{
    let t = personal.skip(i);
    assert(t[0] == personal[i]);
    assert(t.skip(1) =~= personal.skip(i + 1));
}

fn find_vendor_match<'a>(bucket: &'a Vec<VendorCard>, p: &PersonalCard) -> (r: Option<
    &'a VendorCard,
>)
    ensures
        r is Some <==> vendor_match_index(bucket@, *p) >= 0,
        r is Some ==> vendor_match_index(bucket@, *p) < bucket@.len() && *r->0 == bucket@[vendor_match_index(bucket@, *p)],
{
    proof {
        lemma_vendor_match_index_char(bucket@, *p);
    }
    let mut i: usize = 0;
    while i < bucket.len()
        invariant
            i <= bucket@.len(),
            forall|j: int| 0 <= j < i ==> !vendor_match(#[trigger] bucket@[j], *p),
            vendor_match_index(bucket@, *p) == -1 ==> forall|j: int|
                0 <= j < bucket@.len() ==> !vendor_match(#[trigger] bucket@[j], *p),
            vendor_match_index(bucket@, *p) >= 0 ==> vendor_match_index(bucket@, *p)
                < bucket@.len() && vendor_match(bucket@[vendor_match_index(bucket@, *p)], *p)
                && forall|j: int|
                0 <= j < vendor_match_index(bucket@, *p) ==> !vendor_match(
                    #[trigger] bucket@[j],
                    *p,
                ),
        decreases bucket@.len() - i,
    {
        let v = &bucket[i];
        if v.name == p.name && v.foil == p.foil && v.set == p.set {
            proof {
                if vendor_match_index(bucket@, *p) == -1 {
                    assert(false);
                }
                if vendor_match_index(bucket@, *p) < i {
                    assert(false);
                }
                if vendor_match_index(bucket@, *p) > i {
                    assert(!vendor_match(bucket@[i as int], *p));
                    assert(false);
                }
            }
            return Some(v);
        }
        i = i + 1;
    }
    proof {
        if vendor_match_index(bucket@, *p) >= 0 {
            assert(!vendor_match(bucket@[vendor_match_index(bucket@, *p)], *p));
        }
    }
    None
}

/// Splits a collection into the cards a vendor buys right now and the
/// cards no vendor lists.
pub fn get_tradable_and_leftover_cards(
    personal_cards: &Vec<PersonalCard>,
    vendor_cards: &Vec<(CardName, Vec<VendorCard>)>,
) -> (r: (Vec<TradeableCard>, Vec<PersonalCard>))
    requires
        vendor_groups_wf(vendor_cards@),
    ensures
        r.0@ == tradable_spec(personal_cards@, vendor_cards@),
        r.1@ == leftover_spec(personal_cards@, vendor_cards@),
{
    let mut tradable: Vec<TradeableCard> = Vec::new();
    let mut leftover: Vec<PersonalCard> = Vec::new();
    proof {
        assert(personal_cards@.skip(0) =~= personal_cards@);
        assert(Seq::<TradeableCard>::empty() + tradable_spec(personal_cards@, vendor_cards@)
            =~= tradable_spec(personal_cards@, vendor_cards@));
        assert(Seq::<PersonalCard>::empty() + leftover_spec(personal_cards@, vendor_cards@)
            =~= leftover_spec(personal_cards@, vendor_cards@));
    }
    let mut i: usize = 0;
    while i < personal_cards.len()
        invariant
            vendor_groups_wf(vendor_cards@),
            i <= personal_cards@.len(),
            tradable_spec(personal_cards@, vendor_cards@) == tradable@ + tradable_spec(
                personal_cards@.skip(i as int),
                vendor_cards@,
            ),
            leftover_spec(personal_cards@, vendor_cards@) == leftover@ + leftover_spec(
                personal_cards@.skip(i as int),
                vendor_cards@,
            ),
        decreases personal_cards@.len() - i,
    {
        proof {
            lemma_tradable_step(personal_cards@, vendor_cards@, i as int);
            crate::grouping::lemma_bucket_index_char(
                vendor_cards@,
                &personal_cards@[i as int].name,
            );
        }
        let p = &personal_cards[i];
        let mut matched = false;
        match crate::grouping::group_get(vendor_cards, &p.name) {
            None => {},
            Some(bucket) => {
                match find_vendor_match(bucket, p) {
                    None => {},
                    Some(v) => {
                        matched = true;
                        if v.current_stock < v.max_stock {
                            proof {
                                let bi = bucket_index(vendor_cards@, &p.name);
                                assert(crate::comparer::cards_wf(vendor_cards@[bi].1@));
                                assert(vendor_cards@[bi].1@[vendor_match_index(
                                    vendor_cards@[bi].1@,
                                    *p,
                                )].wf());
                            }
                            let t = TradeableCard {
                                name: v.name.clone(),
                                set: v.set.clone(),
                                foil: p.foil,
                                prerelease: v.prerelease,
                                tradeable_vendor: v.vendor,
                                trade_in_price: Price::new(
                                    (v.trade_in_price as u64) * NANOS_PER_UNIT,
                                    Currency::SEK,
                                ),
                                mcm_price: p.price,
                                cards_to_trade: p.count,
                                card_ammount_requested_by_vendor: v.max_stock - v.current_stock,
                                image_url: v.image_url.clone(),
                                color: p.color,
                                rarity: p.rarity,
                            };
                            tradable.push(t);
                            proof {
                                assert(tradable@.last() == tradeable_of(
                                    vendor_cards@[bucket_index(vendor_cards@, &p.name)].1@[vendor_match_index(
                                        vendor_cards@[bucket_index(vendor_cards@, &p.name)].1@,
                                        *p,
                                    )],
                                    *p,
                                ));
                                assert(tradable@ + tradable_spec(
                                    personal_cards@.skip(i + 1 as int),
                                    vendor_cards@,
                                ) =~= tradable@.drop_last() + (seq![tradable@.last()]
                                    + tradable_spec(
                                    personal_cards@.skip(i + 1 as int),
                                    vendor_cards@,
                                )));
                            }
                        }
                    },
                }
            },
        }
        if !matched {
            leftover.push(p.clone());
            proof {
                assert(leftover@ + leftover_spec(personal_cards@.skip(i + 1 as int), vendor_cards@)
                    =~= leftover@.drop_last() + (seq![leftover@.last()] + leftover_spec(
                    personal_cards@.skip(i + 1 as int),
                    vendor_cards@,
                )));
            }
        }
        i = i + 1;
    }
    proof {
        assert(personal_cards@.skip(personal_cards@.len() as int) =~= Seq::<PersonalCard>::empty());
        assert(tradable@ + Seq::<TradeableCard>::empty() =~= tradable@);
        assert(leftover@ + Seq::<PersonalCard>::empty() =~= leftover@);
    }
    (tradable, leftover)
}

/// The trade-matching stage. The storefront walker it carries is used
/// by the surrounding fetch loop to search for leftover cards on the
/// vendor's site; the matching itself is pure.
pub struct TradableCardsComparer {
    pub dl_scraper: crate::scheduler::DragonslairScraper,
}

impl TradableCardsComparer {
    pub fn new(dl_scraper: crate::scheduler::DragonslairScraper) -> (r: TradableCardsComparer)
        ensures
            r.dl_scraper == dl_scraper,
    {
        TradableCardsComparer { dl_scraper }
    }

    /// See the free function of the same name.
    pub fn get_tradable_and_leftover_cards(
        &self,
        personal_cards: &Vec<PersonalCard>,
        vendor_cards: &Vec<(CardName, Vec<VendorCard>)>,
    ) -> (r: (Vec<TradeableCard>, Vec<PersonalCard>))
        requires
            vendor_groups_wf(vendor_cards@),
        ensures
            r.0@ == tradable_spec(personal_cards@, vendor_cards@),
            r.1@ == leftover_spec(personal_cards@, vendor_cards@),
    {
        get_tradable_and_leftover_cards(personal_cards, vendor_cards)
    }
}

// ---------------------------------------------------------------------
// Reading an exported collection list
// ---------------------------------------------------------------------

/// Powers of ten, for scaling a decimal fraction to nano-units.
pub open spec fn pow10(n: nat) -> nat
    decreases n,
{
    if n == 0 {
        1
    } else {
        10 * pow10((n - 1) as nat)
    }
}

proof fn lemma_digits_val_lt_pow10(s: Seq<char>)
    requires
        all_digits(s),
    ensures
        digits_val(s) < pow10(s.len()),
    decreases s.len(),
{
    if s.len() == 0 {
    } else {
        assert(all_digits(s.drop_last()));
        lemma_digits_val_lt_pow10(s.drop_last());
        assert(crate::text::digit_val(s.last()) <= 9) by {
            assert(crate::text::is_digit_char(s[s.len() - 1]));
        }
        assert(digits_val(s) == digits_val(s.drop_last()) * 10 + crate::text::digit_val(s.last()));
        assert(digits_val(s.drop_last()) * 10 <= (pow10(s.drop_last().len()) - 1) * 10)
            by (nonlinear_arith)
            requires
                digits_val(s.drop_last()) < pow10(s.drop_last().len()),
        ;
        assert(pow10(s.len()) == 10 * pow10(s.drop_last().len()));
    }
}

fn pow10_exec(n: u64) -> (r: u64)
    requires
        n <= 9,
    ensures
        r == pow10(n as nat),
{
    proof {
        assert(pow10(0) == 1);
        assert(pow10(1) == 10);
        assert(pow10(2) == 100);
        assert(pow10(3) == 1000);
        assert(pow10(4) == 10000);
        assert(pow10(5) == 100000);
        assert(pow10(6) == 1000000);
        assert(pow10(7) == 10000000);
        assert(pow10(8) == 100000000);
        assert(pow10(9) == 1000000000);
    }
    match n {
        0 => 1,
        1 => 10,
        2 => 100,
        3 => 1000,
        4 => 10000,
        5 => 100000,
        6 => 1000000,
        7 => 10000000,
        8 => 100000000,
        _ => 1000000000,
    }
}

/// Index of the first decimal separator (comma or dot), or -1.
pub open spec fn sep_index(s: Seq<char>) -> int
    decreases s.len(),
{
    if s.len() == 0 {
        -1
    } else if s[0] == ',' || s[0] == '.' {
        0
    } else {
        let r = sep_index(s.skip(1));
        if r < 0 {
            -1
        } else {
            r + 1
        }
    }
}

proof fn lemma_sep_index_char(s: Seq<char>)
    ensures
        sep_index(s) == -1 ==> forall|i: int| 0 <= i < s.len() ==> #[trigger] s[i] != ',' && s[i]
            != '.',
        sep_index(s) >= 0 ==> sep_index(s) < s.len() && (s[sep_index(s)] == ',' || s[sep_index(s)]
            == '.') && forall|i: int| 0 <= i < sep_index(s) ==> #[trigger] s[i] != ',' && s[i]
            != '.',
    decreases s.len(),
{
    if s.len() > 0 && !(s[0] == ',' || s[0] == '.') {
        lemma_sep_index_char(s.skip(1));
        assert(forall|i: int| 1 <= i < s.len() ==> s.skip(1)[i - 1] == #[trigger] s[i]);
    }
}

/// The euro amount of an exported price cell, in nano-units: the
/// currency mark dropped, then whole euros with an optional decimal
/// part of at most nine digits after a comma or dot.
pub open spec fn eur_price_nano_spec(s: Seq<char>) -> Option<int> {
    let t = remove_all_spec(s, "\u{a0}\u{20ac}"@);
    let si = sep_index(t);
    if si == -1 {
        if t.len() > 0 && all_digits(t) && digits_val(t) * (NANOS_PER_UNIT as int)
            <= MAX_PRICE_AMOUNT {
            Some(digits_val(t) * (NANOS_PER_UNIT as int))
        } else {
            None
        }
    } else {
        let w = t.take(si);
        let f = t.skip(si + 1);
        if w.len() > 0 && all_digits(w) && f.len() > 0 && f.len() <= 9 && all_digits(f)
            && digits_val(w) * (NANOS_PER_UNIT as int) + digits_val(f) * pow10(
            (9 - f.len()) as nat,
        ) <= MAX_PRICE_AMOUNT {
            Some(
                digits_val(w) * (NANOS_PER_UNIT as int) + digits_val(f) * pow10(
                    (9 - f.len()) as nat,
                ),
            )
        } else {
            None
        }
    }
}

/// Reads an exported price cell ("200,00\u{a0}\u{20ac}") as euro
/// nano-units.
pub fn parse_eur_price(price_as_text: &str) -> (r: Option<u64>)
    ensures
        match eur_price_nano_spec(price_as_text@) {
            Some(v) => r == Some(v as u64) && v <= MAX_PRICE_AMOUNT,
            None => r is None,
        },
{
    let v = str_chars(price_as_text);
    let mark = str_chars("\u{a0}\u{20ac}");
    proof {
        reveal_strlit("\u{a0}\u{20ac}");
    }
    let t = remove_all_chars(&v, &mark);
    proof {
        lemma_sep_index_char(t@);
    }
    let mut si: usize = 0;
    let mut found = false;
    let mut k: usize = 0;
    while k < t.len()
        invariant
            k <= t@.len(),
            sep_index(t@) == -1 ==> forall|j: int| 0 <= j < t@.len() ==> #[trigger] t@[j] != ','
                && t@[j] != '.',
            sep_index(t@) >= 0 ==> sep_index(t@) < t@.len() && (t@[sep_index(t@)] == ','
                || t@[sep_index(t@)] == '.') && forall|j: int|
                0 <= j < sep_index(t@) ==> #[trigger] t@[j] != ',' && t@[j] != '.',
            !found ==> forall|j: int| 0 <= j < k ==> #[trigger] t@[j] != ',' && t@[j] != '.',
            found ==> si < t@.len() && (t@[si as int] == ',' || t@[si as int] == '.') && sep_index(
                t@,
            ) == si,
            found ==> k == t@.len(),
        decreases t@.len() - k,
    {
        if t[k] == ',' || t[k] == '.' {
            proof {
                if sep_index(t@) == -1 {
                    assert(false);
                }
                if sep_index(t@) < k {
                    assert(false);
                }
                if sep_index(t@) > k {
                    assert(t@[k as int] != ',' && t@[k as int] != '.');
                    assert(false);
                }
            }
            si = k;
            found = true;
            k = t.len();
        } else {
            k = k + 1;
        }
    }
    proof {
        if !found && sep_index(t@) >= 0 {
            assert(t@[sep_index(t@)] != ',');
        }
    }
    if !found {
        match crate::text::parse_u64_chars(&t) {
            Some(n) => {
                if n <= MAX_PRICE_AMOUNT / NANOS_PER_UNIT {
                    Some(n * NANOS_PER_UNIT)
                } else {
                    proof {
                        vstd::arithmetic::mul::lemma_mul_inequality(
                            (MAX_PRICE_AMOUNT / NANOS_PER_UNIT + 1) as int,
                            n as int,
                            NANOS_PER_UNIT as int,
                        );
                    }
                    None
                }
            },
            None => None,
        }
    } else {
        let mut w: Vec<char> = Vec::new();
        let mut i: usize = 0;
        while i < si
            invariant
                i <= si <= t@.len(),
                w@ == t@.subrange(0, i as int),
            decreases si - i,
        {
            w.push(t[i]);
            assert(w@ =~= t@.subrange(0, i + 1 as int));
            i = i + 1;
        }
        assert(w@ =~= t@.take(si as int));
        let mut f: Vec<char> = Vec::new();
        let mut j: usize = si + 1;
        while j < t.len()
            invariant
                si + 1 <= j <= t@.len(),
                f@ == t@.subrange(si + 1 as int, j as int),
            decreases t@.len() - j,
        {
            f.push(t[j]);
            assert(f@ =~= t@.subrange(si + 1 as int, j + 1 as int));
            j = j + 1;
        }
        assert(f@ =~= t@.skip(si + 1 as int));
        if f.len() == 0 || f.len() > 9 {
            return None;
        }
        let wn = match crate::text::parse_u64_chars(&w) {
            Some(n) => n,
            None => {
                proof {
                    if w@.len() > 0 && all_digits(w@) {
                        assert(digits_val(w@) > u64::MAX);
                        assert(digits_val(w@) * (NANOS_PER_UNIT as int) >= digits_val(w@) * 1)
                            by (nonlinear_arith)
                            requires
                                digits_val(w@) >= 0,
                        ;
                    }
                }
                return None;
            },
        };
        let fn_ = match crate::text::parse_u64_chars(&f) {
            Some(n) => n,
            None => {
                proof {
                    if all_digits(f@) {
                        lemma_digits_val_lt_pow10(f@);
                        lemma_pow10_small(f@.len());
                    }
                }
                return None;
            },
        };
        proof {
            lemma_digits_val_lt_pow10(f@);
            lemma_pow10_split(f@.len());
            assert((digits_val(f@) as int) * (pow10((9 - f@.len()) as nat) as int) < (pow10(
                f@.len(),
            ) as int) * (pow10((9 - f@.len()) as nat) as int)) by (nonlinear_arith)
                requires
                    digits_val(f@) < pow10(f@.len()),
                    pow10((9 - f@.len()) as nat) > 0,
            ;
        }
        let scale = pow10_exec(9 - (f.len() as u64));
        let frac = fn_ * scale;
        if wn <= MAX_PRICE_AMOUNT / NANOS_PER_UNIT {
            let whole = wn * NANOS_PER_UNIT;
            if whole <= MAX_PRICE_AMOUNT && frac <= MAX_PRICE_AMOUNT - whole {
                Some(whole + frac)
            } else {
                None
            }
        } else {
            proof {
                vstd::arithmetic::mul::lemma_mul_inequality(
                    (MAX_PRICE_AMOUNT / NANOS_PER_UNIT + 1) as int,
                    wn as int,
                    NANOS_PER_UNIT as int,
                );
            }
            None
        }
    }
}

proof fn lemma_pow10_split(flen: nat)
    requires
        1 <= flen <= 9,
    ensures
        pow10(flen) * pow10((9 - flen) as nat) == 1000000000,
        pow10((9 - flen) as nat) >= 1,
    decreases flen,
{
    if flen == 1 {
        assert(pow10(0) == 1);
        assert(pow10(1) == 10);
        assert(pow10(2) == 100);
        assert(pow10(3) == 1000);
        assert(pow10(4) == 10000);
        assert(pow10(5) == 100000);
        assert(pow10(6) == 1000000);
        assert(pow10(7) == 10000000);
        assert(pow10(8) == 100000000);
    } else {
        lemma_pow10_split((flen - 1) as nat);
        assert(pow10(flen) == 10 * pow10((flen - 1) as nat));
        assert(pow10((9 - (flen - 1)) as nat) == 10 * pow10((9 - flen) as nat));
        assert(pow10((flen - 1) as nat) * (10 * pow10((9 - flen) as nat)) == (10 * pow10(
            (flen - 1) as nat,
        )) * pow10((9 - flen) as nat)) by (nonlinear_arith);
    }
}

proof fn lemma_pow10_small(n: nat)
    requires
        n <= 9,
    ensures
        pow10(n) <= 1000000000,
{
    assert(pow10(0) == 1);
    assert(pow10(1) == 10);
    assert(pow10(2) == 100);
    assert(pow10(3) == 1000);
    assert(pow10(4) == 10000);
    assert(pow10(5) == 100000);
    assert(pow10(6) == 1000000);
    assert(pow10(7) == 10000000);
    assert(pow10(8) == 100000000);
    assert(pow10(9) == 1000000000);
}

/// The colour tag of an exported row: the six exact names map to
/// their colour, anything else counts as multicoloured.
pub open spec fn colour_of_spec(s: Seq<char>) -> MagicColour {
    if s == "White"@ {
        MagicColour::White
    } else if s == "Blue"@ {
        MagicColour::Blue
    } else if s == "Black"@ {
        MagicColour::Black
    } else if s == "Red"@ {
        MagicColour::Red
    } else if s == "Green"@ {
        MagicColour::Green
    } else if s == "Colorless"@ {
        MagicColour::Colorless
    } else {
        MagicColour::Multicolored
    }
}

fn colour_of(s: &str) -> (r: MagicColour)
    ensures
        r == colour_of_spec(s@),
{
    proof {
        reveal_strlit("White");
        reveal_strlit("Blue");
        reveal_strlit("Black");
        reveal_strlit("Red");
        reveal_strlit("Green");
        reveal_strlit("Colorless");
    }
    let v = str_chars(s);
    if chars_eq_str(&v, "White") {
        MagicColour::White
    } else if chars_eq_str(&v, "Blue") {
        MagicColour::Blue
    } else if chars_eq_str(&v, "Black") {
        MagicColour::Black
    } else if chars_eq_str(&v, "Red") {
        MagicColour::Red
    } else if chars_eq_str(&v, "Green") {
        MagicColour::Green
    } else if chars_eq_str(&v, "Colorless") {
        MagicColour::Colorless
    } else {
        MagicColour::Multicolored
    }
}

/// The rarity letter of an exported row; an unknown letter counts as
/// common.
pub open spec fn rarity_of_spec(s: Seq<char>) -> Rarity {
    if s == "C"@ {
        Rarity::Common
    } else if s == "U"@ {
        Rarity::Uncommon
    } else if s == "R"@ {
        Rarity::Rare
    } else if s == "M"@ {
        Rarity::Mythic
    } else {
        Rarity::Common
    }
}

fn rarity_of(s: &str) -> (r: Rarity)
    ensures
        r == rarity_of_spec(s@),
{
    proof {
        reveal_strlit("C");
        reveal_strlit("U");
        reveal_strlit("R");
        reveal_strlit("M");
        assert("C"@ != "U"@) by {
            assert("C"@[0] == 'C');
        }
        assert("C"@ != "R"@) by {
            assert("C"@[0] == 'C');
        }
        assert("C"@ != "M"@) by {
            assert("C"@[0] == 'C');
        }
    }
    let v = str_chars(s);
    if chars_eq_str(&v, "U") {
        Rarity::Uncommon
    } else if chars_eq_str(&v, "R") {
        Rarity::Rare
    } else if chars_eq_str(&v, "M") {
        Rarity::Mythic
    } else {
        Rarity::Common
    }
}

/// An exported row that the conversion accepts: a valid card name and
/// edition, a readable price, and a count that fits.
pub open spec fn delver_card_ok(c: DelverLenseCard) -> bool {
    &&& valid_card_name(c.Name@)
    &&& valid_set_name(c.Edition@)
    &&& eur_price_nano_spec(c.Price@) is Some
    &&& c.Quantity@.len() > 0
    &&& all_digits(c.Quantity@)
    &&& digits_val(c.Quantity@) <= 127
}

/// Turns exported rows into personal cards.
pub struct DelverLenseConverter {
}

impl DelverLenseConverter {
    pub fn new() -> (r: DelverLenseConverter) {
        DelverLenseConverter {  }
    }

    /// Converts each exported row: the name and edition normalized,
    /// the price read as euros, a non-empty foil column meaning foil,
    /// the colour and rarity tags mapped.
    pub fn convert_delver_lense_card_to_personal_card(
        &self,
        cards: &Vec<DelverLenseCard>,
    ) -> (r: Vec<PersonalCard>)
        requires
            forall|i: int| 0 <= i < cards@.len() ==> delver_card_ok(#[trigger] cards@[i]),
        ensures
            r@.len() == cards@.len(),
            forall|i: int|
                0 <= i < cards@.len() ==> {
                    let c = #[trigger] cards@[i];
                    let p = r@[i];
                    &&& p.name.wf()
                    &&& p.name.raw@ == c.Name@
                    &&& p.set.wf()
                    &&& p.set.raw@ == crate::setname::set_raw_spec(c.Edition@)
                    &&& p.foil == (c.Foil@.len() > 0)
                    &&& p.price.amount == eur_price_nano_spec(c.Price@)->0
                    &&& p.price.currency == Currency::EUR
                    &&& p.count == digits_val(c.Quantity@)
                    &&& p.color == colour_of_spec(c.Color@)
                    &&& p.rarity == rarity_of_spec(c.Rarity@)
                },
    {
        let mut r: Vec<PersonalCard> = Vec::new();
        let mut i: usize = 0;
        while i < cards.len()
            invariant
                forall|j: int| 0 <= j < cards@.len() ==> delver_card_ok(#[trigger] cards@[j]),
                i <= cards@.len(),
                r@.len() == i,
                forall|j: int|
                    0 <= j < i ==> {
                        let c = #[trigger] cards@[j];
                        let p = r@[j];
                        &&& p.name.wf()
                        &&& p.name.raw@ == c.Name@
                        &&& p.set.wf()
                        &&& p.set.raw@ == crate::setname::set_raw_spec(c.Edition@)
                        &&& p.foil == (c.Foil@.len() > 0)
                        &&& p.price.amount == eur_price_nano_spec(c.Price@)->0
                        &&& p.price.currency == Currency::EUR
                        &&& p.count == digits_val(c.Quantity@)
                        &&& p.color == colour_of_spec(c.Color@)
                        &&& p.rarity == rarity_of_spec(c.Rarity@)
                    },
            decreases cards@.len() - i,
        {
            let card = &cards[i];
            let name = match crate::cardname::CardName::new(card.Name.clone()) {
                Ok(n) => n,
                Err(_) => {
                    proof {
                        assert(delver_card_ok(cards@[i as int]));
                    }
                    unreached()
                },
            };
            let set = match SetName::new(card.Edition.clone()) {
                Ok(s) => s,
                Err(_) => {
                    proof {
                        assert(delver_card_ok(cards@[i as int]));
                    }
                    unreached()
                },
            };
            let price_nano = match parse_eur_price(card.Price.as_str()) {
                Some(n) => n,
                None => {
                    proof {
                        assert(delver_card_ok(cards@[i as int]));
                    }
                    unreached()
                },
            };
            let qchars = str_chars(card.Quantity.as_str());
            let count = match crate::text::parse_u64_chars(&qchars) {
                Some(n) => n,
                None => {
                    proof {
                        assert(delver_card_ok(cards@[i as int]));
                    }
                    unreached()
                },
            };
            let foil = card.Foil.as_str().unicode_len() > 0;
            let p = PersonalCard {
                name,
                set,
                foil,
                price: Price::new(price_nano, Currency::EUR),
                count: count as i8,
                color: colour_of(card.Color.as_str()),
                rarity: rarity_of(card.Rarity.as_str()),
            };
            r.push(p);
            i = i + 1;
        }
        r
    }
}

// ---------------------------------------------------------------------
// Searching the storefront for leftover cards
// ---------------------------------------------------------------------

/// The percent-encoded form of a string.
pub uninterp spec fn url_encoded_of(s: Seq<char>) -> Seq<char>;

/// Relies on urlencoding::encode: percent-encodes every byte except
/// alphanumerics and `-`, `_`, `.`, `~`; the result depends on the
/// input alone.
#[verifier::external_body]
fn url_encode(s: &str) -> (r: String)
    ensures
        r@ == url_encoded_of(s@),
{
    urlencoding::encode(s).into_owned()
}

impl TradableCardsComparer {
    /// The storefront's name-search path for a leftover card, pages
    /// numbered from zero: page zero probes the page count, the later
    /// pages list the cards.
    pub fn name_search_path(&self, name: &CardName, page: u32) -> (r: String)
        ensures
            r@ == "/product/card-singles/magic/name:"@ + url_encoded_of(
                crate::text::lower_seq(name.almost_raw@),
            ) + "/"@ + crate::text::dec_rep(page as nat),
    {
        let chars = crate::text::str_chars(name.almost_raw.as_str());
        let lowered = crate::text::lower_chars(&chars);
        let lowered_str = crate::text::chars_to_string(&lowered);
        let enc = url_encode(lowered_str.as_str());
        let mut r = String::from_str("/product/card-singles/magic/name:");
        r.append(enc.as_str());
        r.append("/");
        let p = crate::text::u64_to_string(page as u64);
        r.append(p.as_str());
        r
    }
}

} // verus!
