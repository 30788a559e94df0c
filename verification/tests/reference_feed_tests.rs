use magic_card_scraper::alphaspel_page_set_endings;
use magic_card_scraper::build_compared_card;
use magic_card_scraper::convert_raw_entry;
use magic_card_scraper::convert_raw_to_domain_cards;
use magic_card_scraper::filter_nice_price_cards;
use magic_card_scraper::generate_html_footer;
use magic_card_scraper::generate_html_header;
use magic_card_scraper::image_url_default;
use magic_card_scraper::reaper_king_card_name;
use magic_card_scraper::reaper_king_set_name;
use magic_card_scraper::Config;
use magic_card_scraper::Currency;
use magic_card_scraper::Price;
use magic_card_scraper::Prices;
use magic_card_scraper::RawScryfallEntry;
use magic_card_scraper::ScryfallCard;
use magic_card_scraper::Vendor;
use magic_card_scraper::VendorCard;

const NANO: u64 = 1_000_000_000;

fn entry(name: &str, set_name: &str, layout: &str, type_line: &str) -> RawScryfallEntry {
    RawScryfallEntry {
        name: name.to_string(),
        set_name: set_name.to_string(),
        set_code: "shm".to_string(),
        collector_number: "1".to_string(),
        layout: layout.to_string(),
        type_line: type_line.to_string(),
        eur: Some(NANO),
        eur_foil: None,
        image_url: "https://example.invalid/i.jpg".to_string(),
    }
}

#[test]
fn feed_records_are_filtered_and_normalized() {
    let good = entry("Reaper King", "Shadowmoor", "normal", "Legendary Artifact Creature");
    let card = convert_raw_entry(&good).unwrap();
    assert_eq!(card.name.cleaned, "reaper king");
    assert_eq!(card.set.cleaned, "shadowmoor");
    assert_eq!(card.prices.eur, Some(Price::new(NANO, Currency::EUR)));
    assert_eq!(card.prices.eur_foil, None);
    // The collector number is the cleaned set code, a dash, and the
    // number padded to three digits.
    assert_eq!(card.collector_number.unwrap().raw_value, "shm-001");

    assert!(convert_raw_entry(&entry("Some Token", "Shadowmoor", "token", "Token Creature")).is_none());
    assert!(convert_raw_entry(&entry("Art Card", "Shadowmoor", "art_series", "Card")).is_none());
    assert!(convert_raw_entry(&entry("Mountain", "Shadowmoor", "normal", "Basic Land - Mountain")).is_none());
    // A basic land is also rejected by name normalization.
    assert!(convert_raw_entry(&entry("Mountain", "Shadowmoor", "normal", "Land")).is_none());
}

#[test]
fn feed_conversion_groups_printings_by_identity() {
    let entries = vec![
        entry("Reaper King", "Shadowmoor", "normal", "Creature"),
        entry("Reaper King", "Mystery Booster", "normal", "Creature"),
        entry("Lightning Bolt", "Alpha", "normal", "Instant"),
        entry("Some Token", "Shadowmoor", "token", "Token"),
    ];
    let grouped = convert_raw_to_domain_cards(&entries);
    assert_eq!(grouped.len(), 2);
    assert_eq!(grouped[0].1.len(), 2);
    assert_eq!(grouped[1].1.len(), 1);
    assert_eq!(grouped[0].0.cleaned, "reaper king");
    assert_eq!(grouped[1].0.cleaned, "lightning bolt");
}

fn compared_with(vendor_sek: u64, delta: i32) -> magic_card_scraper::ComparedCard {
    let v = VendorCard {
        name: reaper_king_card_name(),
        vendor: Vendor::Dragonslair,
        foil: false,
        image_url: "https://example.invalid/v.jpg".to_string(),
        extended_art: false,
        prerelease: false,
        showcase: false,
        set: reaper_king_set_name(),
        price: Price::new(vendor_sek, Currency::SEK),
        trade_in_price: 0,
        current_stock: 1,
        max_stock: 2,
        collector_number: None,
    };
    let s = ScryfallCard {
        name: reaper_king_card_name(),
        set: reaper_king_set_name(),
        image_url: "https://example.invalid/s.jpg".to_string(),
        prices: Prices { eur: Some(Price::new(NANO, Currency::EUR)), eur_foil: None },
        collector_number: None,
    };
    let mut c = build_compared_card(&v, &s, Price::new(NANO, Currency::EUR));
    c.price_difference_to_cheapest_vendor_card = delta;
    c
}

/// The tiered rule: cheap cards must undercut the reference, mid-range
/// cards may be five kronor above, expensive cards follow the
/// configured threshold.
#[test]
fn nice_price_filter_applies_the_tiered_thresholds() {
    let groups = vec![(
        reaper_king_card_name(),
        vec![
            compared_with(8 * NANO, 0),    // cheap, at par: kept
            compared_with(8 * NANO, 1),    // cheap, above: dropped
            compared_with(20 * NANO, 5),   // mid, five above: kept
            compared_with(20 * NANO, 6),   // mid, six above: dropped
            compared_with(100 * NANO, -3), // expensive, under threshold -2: dropped
            compared_with(100 * NANO, -8), // expensive, below threshold: kept
        ],
    )];
    let kept = filter_nice_price_cards(&groups, -5);
    assert_eq!(kept.len(), 3);
    assert_eq!(kept[0].price_difference_to_cheapest_vendor_card, 0);
    assert_eq!(kept[1].price_difference_to_cheapest_vendor_card, 5);
    assert_eq!(kept[2].price_difference_to_cheapest_vendor_card, -8);
}

#[test]
fn config_defaults_and_env_overrides() {
    let mut c = Config::new();
    assert!(c.dragonslair && c.scryfall && c.alpha && c.external_price_check);
    assert_eq!(c.nice_price_diff, 0);
    assert_eq!(c.delver_lense_path, "");

    c.update_from_env(
        Some("0".to_string()),
        None,
        Some("1".to_string()),
        Some("-20".to_string()),
        Some("0".to_string()),
        Some("cards.csv".to_string()),
        true,
    );
    assert!(!c.dragonslair);
    assert!(c.scryfall);
    assert!(c.alpha);
    assert_eq!(c.nice_price_diff, -20);
    assert!(!c.external_price_check);
    assert_eq!(c.delver_lense_path, "cards.csv");

    // A non-existing or non-csv path clears the setting.
    c.update_from_env(None, None, None, Some("oops".to_string()), None, Some("cards.txt".to_string()), true);
    assert_eq!(c.delver_lense_path, "");
    assert_eq!(c.nice_price_diff, 0);
}

#[test]
fn page_frame_and_defaults_are_nonempty() {
    assert!(generate_html_header().starts_with("<!DOCTYPE html>"));
    assert!(generate_html_footer().ends_with("</html>\n"));
    assert!(image_url_default().starts_with("https://"));
}

#[test]
fn alphaspel_catalogue_lists_every_section() {
    let sections = alphaspel_page_set_endings();
    assert_eq!(sections.len(), 278);
    assert_eq!(
        sections[0],
        ("/2441-10th-edition/".to_string(), "10th Edition".to_string())
    );
    let last = sections.last().unwrap();
    assert_eq!(last.1, "Zendikar Rising Commander");
}
