use magic_card_scraper::Currency;
use magic_card_scraper::Price;

const NANO: u64 = 1_000_000_000;

#[test]
fn price_test_reading_delver_lense_cards() {
    let price_eur = Price::new(5 * NANO, Currency::EUR);
    let price_sek = Price::new(60 * NANO, Currency::SEK);
    let price_sek2 = Price::new(60 * NANO, Currency::SEK);

    assert_eq!(price_eur < price_sek, true);
    assert_eq!(price_eur > price_sek, false);
    assert_eq!(price_sek2 == price_sek, true);
}

#[test]
fn price_test_price_conversion() {
    let price_eur = Price::new(5 * NANO, Currency::EUR);
    let price_sek = Price::new(60 * NANO, Currency::SEK);

    // 5 EUR at 11.0304 is exactly 55.152 SEK.
    assert_eq!(price_eur.convert_to(Currency::EUR).amount, 5 * NANO);
    assert_eq!(price_eur.convert_to(Currency::SEK).amount, 55_152_000_000);
    // 60 SEK at 0.090658791 is exactly 5.43952746 EUR.
    assert_eq!(price_sek.convert_to(Currency::SEK).amount, 60 * NANO);
    assert_eq!(price_sek.convert_to(Currency::EUR).amount, 5_439_527_460);
}

#[test]
fn price_round_trip_stays_within_tolerance() {
    for amount in [0u64, 1, 999, 7 * NANO, 100 * NANO, 12_345_678_901_234] {
        let eur = Price::new(amount, Currency::EUR);
        let rt = eur.convert_to(Currency::SEK).convert_to(Currency::EUR);
        let tol = amount / 300_000 + 13;
        assert!(rt.amount.abs_diff(amount) <= tol, "eur round trip {amount}");

        let sek = Price::new(amount, Currency::SEK);
        let rt = sek.convert_to(Currency::EUR).convert_to(Currency::SEK);
        assert!(rt.amount.abs_diff(amount) <= tol, "sek round trip {amount}");
    }
}

#[test]
fn cross_currency_comparison_uses_canonical_value() {
    // 1 EUR is worth about 11 SEK, so 1 EUR > 10 SEK and < 12 SEK.
    let one_eur = Price::new(NANO, Currency::EUR);
    let ten_sek = Price::new(10 * NANO, Currency::SEK);
    let twelve_sek = Price::new(12 * NANO, Currency::SEK);
    assert!(one_eur > ten_sek);
    assert!(one_eur < twelve_sek);
}

#[test]
fn whole_units_truncate() {
    let p = Price::new(11_030_400_000, Currency::SEK);
    assert_eq!(p.whole_units(), 11);
    let q = Price::new(999_999_999, Currency::SEK);
    assert_eq!(q.whole_units(), 0);
}

#[test]
fn largest_allowed_amount_still_converts() {
    // One hundred million units is the largest storable amount.
    let max = 100_000_000_000_000_000u64;
    let p = Price::new(max, Currency::EUR);
    let sek = p.convert_to(Currency::SEK);
    assert_eq!(sek.amount, max / 10_000 * 110_304);
    let back = sek.convert_to(Currency::EUR);
    assert!(back.amount.abs_diff(max) <= max / 300_000 + 13);
}
