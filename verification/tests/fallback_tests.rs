use magic_card_scraper::choose_slug;
use magic_card_scraper::get_card_search_uri;
use magic_card_scraper::lifecraft_c_set_name;
use magic_card_scraper::reaper_king_card_name;
use magic_card_scraper::reaper_king_set_name;
use magic_card_scraper::reaper_king_set_name_2;
use magic_card_scraper::select_price_for_set;
use magic_card_scraper::Currency;
use magic_card_scraper::MtgPriceFetcher;
use magic_card_scraper::MtgStocksCard;
use magic_card_scraper::Price;

const NANO: u64 = 1_000_000_000;

fn listed(prices: &[(magic_card_scraper::SetName, u64)]) -> Vec<MtgStocksCard> {
    prices
        .iter()
        .map(|(set, n)| MtgStocksCard { set: set.clone(), price: Price::new(*n, Currency::EUR) })
        .collect()
}

/// The first lookup for an identity misses and costs a network round
/// trip; a second lookup for a different set of the same identity is
/// served from the cache with zero further calls.
#[test]
fn second_lookup_for_other_set_hits_cache() {
    let mut fetcher = MtgPriceFetcher::new("https://example.invalid".to_string());
    let name = reaper_king_card_name();
    let set1 = reaper_king_set_name();
    let set2 = reaper_king_set_name_2();

    let mut network_calls: u32 = 0;

    // First lookup: cache miss, the caller performs the remote calls.
    assert!(fetcher.lookup(&name, &set1).is_none());
    network_calls += 1;
    let fetched = listed(&[(set1.clone(), 2 * NANO), (set2.clone(), 3 * NANO)]);
    let first = fetcher.complete_lookup(name.clone(), &set1, fetched).unwrap();
    assert_eq!(first.amount, 2 * NANO);

    // Second lookup, different set, same identity: answered from the
    // cache, no further network call.
    let cached = fetcher.lookup(&name, &set2);
    assert_eq!(cached.unwrap().amount, 3 * NANO);
    assert_eq!(network_calls, 1);
}

/// A cached identity whose list does not hold the asked set falls
/// through as a miss.
#[test]
fn cached_identity_without_set_is_a_miss() {
    let mut fetcher = MtgPriceFetcher::new("https://example.invalid".to_string());
    let name = reaper_king_card_name();
    let set1 = reaper_king_set_name();
    let other = lifecraft_c_set_name();
    let fetched = listed(&[(set1.clone(), 2 * NANO)]);
    let _ = fetcher.complete_lookup(name.clone(), &set1, fetched);
    assert!(fetcher.lookup(&name, &other).is_none());
}

/// A fetched list without the asked set stores the list and fails the
/// lookup.
#[test]
fn complete_lookup_without_set_fails_but_caches() {
    let mut fetcher = MtgPriceFetcher::new("https://example.invalid".to_string());
    let name = reaper_king_card_name();
    let set1 = reaper_king_set_name();
    let set2 = reaper_king_set_name_2();
    let fetched = listed(&[(set2.clone(), 3 * NANO)]);
    assert!(fetcher.complete_lookup(name.clone(), &set1, fetched).is_err());
    // The other set of the same identity is now served from the cache.
    assert_eq!(fetcher.lookup(&name, &set2).unwrap().amount, 3 * NANO);
}

#[test]
fn choose_slug_skips_token_listings() {
    let cands = vec![
        ("Reaper King Token".to_string(), "1-reaper-king-token".to_string()),
        ("Reaper King".to_string(), "2-reaper-king".to_string()),
    ];
    assert_eq!(choose_slug(&cands).unwrap(), "2-reaper-king");
    let only_tokens = vec![("A Token".to_string(), "3-a-token".to_string())];
    assert!(choose_slug(&only_tokens).is_none());
    assert!(choose_slug(&vec![]).is_none());
}

#[test]
fn select_price_for_set_picks_first_listing_of_the_set() {
    let set1 = reaper_king_set_name();
    let set2 = reaper_king_set_name_2();
    let list = listed(&[(set2.clone(), 9 * NANO), (set1.clone(), 2 * NANO), (set1.clone(), 7 * NANO)]);
    assert_eq!(select_price_for_set(&list, &set1).unwrap().amount, 2 * NANO);
    assert_eq!(select_price_for_set(&list, &set2).unwrap().amount, 9 * NANO);
    assert!(select_price_for_set(&list, &lifecraft_c_set_name()).is_none());
}

#[test]
fn request_paths_encode_their_arguments() {
    let uri = get_card_search_uri("Reaper King");
    assert_eq!(
        uri,
        "https://api.mtgstocks.com/search/autocomplete/Reaper+King"
    );
    let fetcher = MtgPriceFetcher::new("https://api.example.invalid".to_string());
    assert_eq!(
        fetcher.get_prints_uri("16455-giant-growth"),
        "https://api.example.invalid/prints/16455-giant-growth"
    );
}
