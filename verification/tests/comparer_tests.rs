use magic_card_scraper::build_compared_card;
use magic_card_scraper::get_cheapest_foil_scryfall_card;
use magic_card_scraper::get_cheapest_scryfall_card;
use magic_card_scraper::find_matching_scryfall_card;
use magic_card_scraper::group_results;
use magic_card_scraper::plan_all;
use magic_card_scraper::plan_bucket;
use magic_card_scraper::plan_comparison;
use magic_card_scraper::complete_requests;
use magic_card_scraper::lifecraft_c_name;
use magic_card_scraper::lifecraft_c_set_name;
use magic_card_scraper::reaper_king_card_name;
use magic_card_scraper::reaper_king_set_name;
use magic_card_scraper::reaper_king_set_name_2;
use magic_card_scraper::CardName;
use magic_card_scraper::CollectorNumber;
use magic_card_scraper::Comparer;
use magic_card_scraper::ComparisonStep;
use magic_card_scraper::Currency;
use magic_card_scraper::Price;
use magic_card_scraper::Prices;
use magic_card_scraper::ScryfallCard;
use magic_card_scraper::SetName;
use magic_card_scraper::Vendor;
use magic_card_scraper::VendorCard;

const NANO: u64 = 1_000_000_000;

fn vendor_card(
    name: CardName,
    set: SetName,
    foil: bool,
    price_sek: u64,
    number: Option<CollectorNumber>,
) -> VendorCard {
    VendorCard {
        name,
        vendor: Vendor::Dragonslair,
        foil,
        image_url: "https://example.invalid/card.jpg".to_string(),
        extended_art: false,
        prerelease: false,
        showcase: false,
        set,
        price: Price::new(price_sek * NANO, Currency::SEK),
        trade_in_price: 50,
        current_stock: 1,
        max_stock: 2,
        collector_number: number,
    }
}

fn scryfall_card(
    name: CardName,
    set: SetName,
    eur: Option<u64>,
    eur_foil: Option<u64>,
    number: Option<CollectorNumber>,
) -> ScryfallCard {
    ScryfallCard {
        name,
        set,
        image_url: "https://example.invalid/ref.jpg".to_string(),
        prices: Prices {
            eur: eur.map(|n| Price::new(n, Currency::EUR)),
            eur_foil: eur_foil.map(|n| Price::new(n, Currency::EUR)),
        },
        collector_number: number,
    }
}

/// Vendor 100 SEK against a 1 EUR reference at 11.0304: the converted
/// reference truncates to 11 whole kronor, so the delta is 89.
#[test]
fn reaper_king_delta_is_89() {
    let v = vendor_card(
        reaper_king_card_name(),
        reaper_king_set_name(),
        false,
        100,
        None,
    );
    let s = scryfall_card(
        reaper_king_card_name(),
        reaper_king_set_name(),
        Some(NANO),
        None,
        None,
    );
    let refs = vec![s];
    let step = plan_comparison(&v, &refs, true);
    match step {
        ComparisonStep::Ready(c) => {
            assert_eq!(c.price_difference_to_cheapest_vendor_card, 89);
            assert_eq!(c.vendor_card, v);
        }
        _ => panic!("expected a finished comparison"),
    }
}

/// No reference entry for the vendor record's set and no collector
/// number: the record yields nothing.
#[test]
fn no_set_match_yields_zero_results() {
    let v = vendor_card(
        reaper_king_card_name(),
        reaper_king_set_name(),
        false,
        100,
        None,
    );
    // Only a "Mystery booster retail edition foils" printing exists.
    let s = scryfall_card(
        reaper_king_card_name(),
        reaper_king_set_name_2(),
        Some(NANO),
        None,
        None,
    );
    let refs = vec![s];
    assert!(find_matching_scryfall_card(&v, &refs).is_none());
    let (ready, requests) = plan_bucket(&vec![v], &refs, true);
    assert_eq!(ready.len(), 0);
    assert_eq!(requests.len(), 0);
}

/// A collector-number match is chosen even when another reference
/// record matches the set.
#[test]
fn collector_number_match_beats_set_match() {
    let num = CollectorNumber::new("143").unwrap();
    let v = vendor_card(
        reaper_king_card_name(),
        reaper_king_set_name(),
        false,
        100,
        Some(num.clone()),
    );
    let by_set = scryfall_card(
        reaper_king_card_name(),
        reaper_king_set_name(),
        Some(2 * NANO),
        None,
        None,
    );
    let by_number = scryfall_card(
        reaper_king_card_name(),
        reaper_king_set_name_2(),
        Some(NANO),
        None,
        Some(num),
    );
    let refs = vec![by_set, by_number.clone()];
    let idx = find_matching_scryfall_card(&v, &refs).unwrap();
    assert_eq!(idx, 1);
    match plan_comparison(&v, &refs, true) {
        ComparisonStep::Ready(c) => assert_eq!(c.scryfall_card, by_number),
        _ => panic!("expected a finished comparison"),
    }
}

/// An identity absent from the reference index produces no result and
/// no error.
#[test]
fn absent_identity_produces_nothing() {
    let v = vendor_card(
        lifecraft_c_name(),
        lifecraft_c_set_name(),
        false,
        40,
        None,
    );
    let vendor_groups = vec![(lifecraft_c_name(), vec![v])];
    let ref_groups = vec![(
        reaper_king_card_name(),
        vec![scryfall_card(
            reaper_king_card_name(),
            reaper_king_set_name(),
            Some(NANO),
            None,
            None,
        )],
    )];
    let (ready, requests) = plan_all(&vendor_groups, &ref_groups, true);
    assert_eq!(ready.len(), 0);
    assert_eq!(requests.len(), 0);
}

/// A matched record without a price for the listing's finish defers to
/// the live fallback when external checks are on, and is skipped when
/// they are off.
#[test]
fn missing_reference_price_defers_or_skips() {
    let v = vendor_card(
        reaper_king_card_name(),
        reaper_king_set_name(),
        true,
        200,
        None,
    );
    let s = scryfall_card(
        reaper_king_card_name(),
        reaper_king_set_name(),
        Some(NANO),
        None, // no foil price
        None,
    );
    let refs = vec![s];
    match plan_comparison(&v, &refs, true) {
        ComparisonStep::NeedsLivePrice(m) => assert_eq!(m, 0),
        _ => panic!("expected a deferred comparison"),
    }
    match plan_comparison(&v, &refs, false) {
        ComparisonStep::NoMatch => {}
        _ => panic!("expected the record to be skipped"),
    }
}

/// When the live fallback answers, its price is used; when it misses,
/// the zero sentinel keeps the comparison alive.
#[test]
fn live_price_completion_and_sentinel() {
    let v = vendor_card(
        reaper_king_card_name(),
        reaper_king_set_name(),
        true,
        200,
        None,
    );
    let s = scryfall_card(
        reaper_king_card_name(),
        reaper_king_set_name(),
        None,
        None,
        None,
    );
    let refs = vec![s];
    let (ready, requests) = plan_bucket(&vec![v.clone()], &refs, true);
    assert_eq!(ready.len(), 0);
    assert_eq!(requests.len(), 1);

    // Fallback found 2 EUR: delta is 200 - 22 = 178.
    let done = complete_requests(&requests, &vec![Some(Price::new(2 * NANO, Currency::EUR))]);
    assert_eq!(done.len(), 1);
    assert_eq!(done[0].price_difference_to_cheapest_vendor_card, 178);

    // Fallback missed: the zero sentinel gives delta 200.
    let done = complete_requests(&requests, &vec![None]);
    assert_eq!(done[0].price_difference_to_cheapest_vendor_card, 200);
}

#[test]
fn build_compared_card_truncates_each_side() {
    let v = vendor_card(
        reaper_king_card_name(),
        reaper_king_set_name(),
        false,
        100,
        None,
    );
    let s = scryfall_card(
        reaper_king_card_name(),
        reaper_king_set_name(),
        Some(NANO),
        None,
        None,
    );
    let c = build_compared_card(&v, &s, Price::new(NANO, Currency::EUR));
    assert_eq!(c.price_difference_to_cheapest_vendor_card, 89);
}

#[test]
fn separete_foil_and_non_foil_cards_drops_empty_buckets() {
    let foil = vendor_card(
        reaper_king_card_name(),
        reaper_king_set_name(),
        true,
        200,
        None,
    );
    let non_foil = vendor_card(
        reaper_king_card_name(),
        reaper_king_set_name(),
        false,
        100,
        None,
    );
    let only_foil = vendor_card(
        lifecraft_c_name(),
        lifecraft_c_set_name(),
        true,
        40,
        None,
    );
    let groups = vec![
        (reaper_king_card_name(), vec![foil.clone(), non_foil.clone()]),
        (lifecraft_c_name(), vec![only_foil.clone()]),
    ];
    let comparer = Comparer::new(vec![], "https://example.invalid".to_string());
    let (foils, non_foils) = comparer.separete_foil_and_non_foil_cards(&groups);
    assert_eq!(foils.len(), 2);
    assert_eq!(foils[0].1, vec![foil]);
    assert_eq!(foils[1].1, vec![only_foil]);
    assert_eq!(non_foils.len(), 1);
    assert_eq!(non_foils[0].1, vec![non_foil]);
}

#[test]
fn group_results_buckets_by_identity() {
    let v1 = vendor_card(
        reaper_king_card_name(),
        reaper_king_set_name(),
        false,
        100,
        None,
    );
    let v2 = vendor_card(
        reaper_king_card_name(),
        reaper_king_set_name_2(),
        false,
        50,
        None,
    );
    let v3 = vendor_card(
        lifecraft_c_name(),
        lifecraft_c_set_name(),
        false,
        40,
        None,
    );
    let s = scryfall_card(
        reaper_king_card_name(),
        reaper_king_set_name(),
        Some(NANO),
        None,
        None,
    );
    let mk = |v: &VendorCard| build_compared_card(v, &s, Price::new(NANO, Currency::EUR));
    let results = vec![mk(&v1), mk(&v3), mk(&v2)];
    let grouped = group_results(&results);
    assert_eq!(grouped.len(), 2);
    assert_eq!(grouped[0].1.len(), 2);
    assert_eq!(grouped[1].1.len(), 1);
    assert!(grouped[0].0 == reaper_king_card_name());
    assert!(grouped[1].0 == lifecraft_c_name());
}

/// The cheapest printing is selected by canonical value, earliest on
/// ties, skipping printings without the asked finish's price.
#[test]
fn cheapest_printing_selection() {
    let expensive = scryfall_card(
        reaper_king_card_name(),
        reaper_king_set_name(),
        Some(2 * NANO),
        Some(5 * NANO),
        None,
    );
    let cheap = scryfall_card(
        reaper_king_card_name(),
        reaper_king_set_name_2(),
        Some(NANO),
        None,
        None,
    );
    let cards = vec![expensive, cheap];
    assert_eq!(get_cheapest_scryfall_card(&cards).unwrap().amount, NANO);
    // Only the first printing has a foil price.
    assert_eq!(get_cheapest_foil_scryfall_card(&cards).unwrap().amount, 5 * NANO);
    assert!(get_cheapest_scryfall_card(&vec![]).is_none());
}

/// A run with no vendor records, or no reference records at all,
/// legitimately produces an empty comparison map.
#[test]
fn empty_runs_produce_empty_maps() {
    let (ready, requests) = plan_all(&vec![], &vec![], true);
    assert!(ready.is_empty() && requests.is_empty());
    let v = vendor_card(
        reaper_king_card_name(),
        reaper_king_set_name(),
        false,
        100,
        None,
    );
    let (ready, requests) = plan_all(&vec![(reaper_king_card_name(), vec![v])], &vec![], true);
    assert!(ready.is_empty() && requests.is_empty());
    assert!(group_results(&vec![]).is_empty());
}
