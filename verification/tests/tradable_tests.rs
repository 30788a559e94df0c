use magic_card_scraper::get_tradable_and_leftover_cards;
use magic_card_scraper::lifecraft_c_name;
use magic_card_scraper::lifecraft_c_set_name;
use magic_card_scraper::reaper_king_card_name;
use magic_card_scraper::reaper_king_set_name;
use magic_card_scraper::Currency;
use magic_card_scraper::DelverLenseCard;
use magic_card_scraper::DelverLenseConverter;
use magic_card_scraper::DragonslairScraper;
use magic_card_scraper::TradableCardsComparer;
use magic_card_scraper::MagicColour;
use magic_card_scraper::PersonalCard;
use magic_card_scraper::Price;
use magic_card_scraper::Rarity;
use magic_card_scraper::Vendor;
use magic_card_scraper::VendorCard;

const NANO: u64 = 1_000_000_000;

fn vendor(name: magic_card_scraper::CardName, set: magic_card_scraper::SetName, foil: bool, current: i8, max: i8) -> VendorCard {
    VendorCard {
        name,
        vendor: Vendor::Dragonslair,
        foil,
        image_url: "https://example.invalid/v.jpg".to_string(),
        extended_art: false,
        prerelease: false,
        showcase: false,
        set,
        price: Price::new(100 * NANO, Currency::SEK),
        trade_in_price: 40,
        current_stock: current,
        max_stock: max,
        collector_number: None,
    }
}

fn personal(name: magic_card_scraper::CardName, set: magic_card_scraper::SetName, foil: bool) -> PersonalCard {
    PersonalCard {
        name,
        set,
        foil,
        price: Price::new(2 * NANO, Currency::EUR),
        count: 1,
        color: MagicColour::Multicolored,
        rarity: Rarity::Rare,
    }
}

#[test]
fn vendor_with_room_takes_the_card() {
    let v = vendor(reaper_king_card_name(), reaper_king_set_name(), false, 1, 3);
    let groups = vec![(reaper_king_card_name(), vec![v.clone()])];
    let p = personal(reaper_king_card_name(), reaper_king_set_name(), false);
    let (tradable, leftover) = get_tradable_and_leftover_cards(&vec![p.clone()], &groups);
    assert_eq!(tradable.len(), 1);
    assert_eq!(leftover.len(), 0);
    let t = &tradable[0];
    assert!(t.name == v.name);
    assert!(t.set == v.set);
    assert_eq!(t.trade_in_price, Price::new(40 * NANO, Currency::SEK));
    assert_eq!(t.mcm_price, p.price);
    assert_eq!(t.card_ammount_requested_by_vendor, 2);
    assert_eq!(t.cards_to_trade, 1);
}

#[test]
fn full_stock_drops_the_card_without_leftover() {
    let v = vendor(reaper_king_card_name(), reaper_king_set_name(), false, 3, 3);
    let groups = vec![(reaper_king_card_name(), vec![v])];
    let p = personal(reaper_king_card_name(), reaper_king_set_name(), false);
    let (tradable, leftover) = get_tradable_and_leftover_cards(&vec![p], &groups);
    assert_eq!(tradable.len(), 0);
    assert_eq!(leftover.len(), 0);
}

#[test]
fn unlisted_cards_are_handed_back() {
    let v = vendor(reaper_king_card_name(), reaper_king_set_name(), false, 1, 3);
    let groups = vec![(reaper_king_card_name(), vec![v])];
    // Wrong finish, wrong set, and unknown identity all fall through.
    let wrong_finish = personal(reaper_king_card_name(), reaper_king_set_name(), true);
    let wrong_set = personal(reaper_king_card_name(), lifecraft_c_set_name(), false);
    let unknown = personal(lifecraft_c_name(), lifecraft_c_set_name(), false);
    let (tradable, leftover) = get_tradable_and_leftover_cards(
        &vec![wrong_finish.clone(), wrong_set.clone(), unknown.clone()],
        &groups,
    );
    assert_eq!(tradable.len(), 0);
    assert_eq!(leftover, vec![wrong_finish, wrong_set, unknown]);
}

fn delver_row(name: &str, foil: &str, edition: &str, price: &str, qty: &str, color: &str, rarity: &str) -> DelverLenseCard {
    DelverLenseCard {
        Name: name.to_string(),
        Foil: foil.to_string(),
        Edition: edition.to_string(),
        Price: price.to_string(),
        Quantity: qty.to_string(),
        Color: color.to_string(),
        Rarity: rarity.to_string(),
    }
}

#[test]
fn delver_rows_become_personal_cards() {
    let converter = DelverLenseConverter::new();
    let rows = vec![
        delver_row("Reaper King", "Foil", "Shadowmoor", "200,00\u{a0}\u{20ac}", "1", "WUBRG", "R"),
        delver_row("Counterspell", "", "Ice Age", "1,24\u{a0}\u{20ac}", "2", "Blue", "C"),
    ];
    let cards = converter.convert_delver_lense_card_to_personal_card(&rows);
    assert_eq!(cards.len(), 2);

    assert_eq!(cards[0].name.raw, "Reaper King");
    assert_eq!(cards[0].name.cleaned, "reaper king");
    assert!(cards[0].foil);
    assert_eq!(cards[0].price, Price::new(200 * NANO, Currency::EUR));
    assert_eq!(cards[0].count, 1);
    assert_eq!(cards[0].color, MagicColour::Multicolored);
    assert_eq!(cards[0].rarity, Rarity::Rare);

    assert_eq!(cards[1].set.cleaned, "ice age");
    assert!(!cards[1].foil);
    assert_eq!(cards[1].price, Price::new(1_240_000_000, Currency::EUR));
    assert_eq!(cards[1].count, 2);
    assert_eq!(cards[1].color, MagicColour::Blue);
    assert_eq!(cards[1].rarity, Rarity::Common);
}

#[test]
fn leftover_search_path_is_lowercased_and_encoded() {
    let comparer = TradableCardsComparer::new(DragonslairScraper::new(
        "https://shop.example.invalid",
        None,
    ));
    let name = reaper_king_card_name();
    assert_eq!(
        comparer.name_search_path(&name, 0),
        "/product/card-singles/magic/name:reaper%20king/0"
    );
    assert_eq!(
        comparer.name_search_path(&name, 3),
        "/product/card-singles/magic/name:reaper%20king/3"
    );
}

fn reaper_king_vendor_card_expensive() -> VendorCard {
    VendorCard {
        vendor: Vendor::Dragonslair,
        name: reaper_king_card_name(),
        foil: false,
        image_url: "https://astraeus.dragonslair.se/images/4026/product".to_string(),
        extended_art: false,
        prerelease: false,
        showcase: false,
        set: reaper_king_set_name(),
        price: Price::new(100 * NANO, Currency::SEK),
        trade_in_price: 50,
        current_stock: 1,
        max_stock: 2,
        collector_number: None,
    }
}

fn reaper_king_vendor_card_cheap() -> VendorCard {
    VendorCard {
        set: magic_card_scraper::reaper_king_set_name_2(),
        price: Price::new(50 * NANO, Currency::SEK),
        trade_in_price: 40,
        ..reaper_king_vendor_card_expensive()
    }
}

fn reaper_king_vendor_card_foil() -> VendorCard {
    VendorCard {
        foil: true,
        price: Price::new(200 * NANO, Currency::SEK),
        trade_in_price: 100,
        ..reaper_king_vendor_card_expensive()
    }
}

fn counterspell_forth_e() -> VendorCard {
    VendorCard {
        name: magic_card_scraper::CardName::new("Counterspell".to_string()).unwrap(),
        set: magic_card_scraper::SetName::new("Magic 25".to_string()).unwrap(),
        trade_in_price: 50,
        current_stock: 6,
        max_stock: 4,
        ..reaper_king_vendor_card_expensive()
    }
}

fn counterspell_ice_age() -> VendorCard {
    VendorCard {
        name: magic_card_scraper::CardName::new("Counterspell".to_string()).unwrap(),
        set: magic_card_scraper::SetName::new("Ice Age".to_string()).unwrap(),
        trade_in_price: 50,
        current_stock: 2,
        max_stock: 4,
        ..reaper_king_vendor_card_expensive()
    }
}

fn delver_card_1() -> DelverLenseCard {
    delver_row("Reaper King", "Foil", "Shadowmoor", "200,00\u{a0}\u{20ac}", "1", "WUBRG", "R")
}

fn delver_card_2() -> DelverLenseCard {
    delver_row("Reaper King", "", "Shadowmoor", "2,06\u{a0}\u{20ac}", "1", "WUBRG", "R")
}

fn delver_card_3() -> DelverLenseCard {
    delver_row("Counterspell", "Foil", "Fourth Edition", "0,94\u{a0}\u{20ac}", "2", "Blue", "C")
}

fn delver_card_4() -> DelverLenseCard {
    delver_row("Counterspell", "", "Ice Age", "1,24\u{a0}\u{20ac}", "1", "Blue", "C")
}

fn delver_card_5() -> DelverLenseCard {
    delver_row("Counterspell", "", "Masters 25", "1,10\u{a0}\u{20ac}", "1", "Blue", "C")
}

fn group_vendor_cards(cards: Vec<VendorCard>) -> Vec<(magic_card_scraper::CardName, Vec<VendorCard>)> {
    let mut grouped = Vec::new();
    for card in cards {
        let key = card.name.clone();
        magic_card_scraper::group_insert(&mut grouped, key, card);
    }
    grouped
}

#[test]
fn get_tradable_cards_should_return_tradable_cards() {
    let card1 = reaper_king_vendor_card_expensive();
    let card2 = reaper_king_vendor_card_cheap();
    let card3 = reaper_king_vendor_card_foil();
    let card4 = counterspell_forth_e();
    let card5 = counterspell_ice_age();
    let vendor_cards_map = group_vendor_cards(vec![card1, card2, card3, card4, card5]);

    let raw_cards = vec![
        delver_card_1(),
        delver_card_2(),
        delver_card_3(),
        delver_card_4(),
        delver_card_5(),
    ];
    let delver_lense_converter = DelverLenseConverter::new();
    let personal_cards = delver_lense_converter.convert_delver_lense_card_to_personal_card(&raw_cards);

    let tradeable_card1 = magic_card_scraper::TradeableCard {
        name: magic_card_scraper::CardName::new("Reaper King".to_string()).unwrap(),
        set: magic_card_scraper::SetName::new("Shadowmoor".to_string()).unwrap(),
        foil: true,
        prerelease: false,
        tradeable_vendor: Vendor::Dragonslair,
        trade_in_price: Price::new(100 * NANO, Currency::SEK),
        mcm_price: Price::new(200 * NANO, Currency::EUR),
        cards_to_trade: 1,
        card_ammount_requested_by_vendor: 1,
        image_url: "https://astraeus.dragonslair.se/images/4026/product".to_string(),
        color: MagicColour::Multicolored,
        rarity: Rarity::Rare,
    };
    let tradeable_card2 = magic_card_scraper::TradeableCard {
        foil: false,
        trade_in_price: Price::new(50 * NANO, Currency::SEK),
        mcm_price: Price::new(2_060_000_000, Currency::EUR),
        ..tradeable_card1.clone()
    };
    let tradeable_card4 = magic_card_scraper::TradeableCard {
        name: magic_card_scraper::CardName::new("Counterspell".to_string()).unwrap(),
        set: magic_card_scraper::SetName::new("Ice Age".to_string()).unwrap(),
        foil: false,
        trade_in_price: Price::new(50 * NANO, Currency::SEK),
        mcm_price: Price::new(1_240_000_000, Currency::EUR),
        cards_to_trade: 1,
        card_ammount_requested_by_vendor: 2,
        color: MagicColour::Blue,
        rarity: Rarity::Common,
        ..tradeable_card1.clone()
    };
    let expected_cards = vec![tradeable_card1, tradeable_card2, tradeable_card4];

    let dl_scraper = DragonslairScraper::new("www.test.com", None);
    let tradable_cards_comparer = TradableCardsComparer::new(dl_scraper);

    let (result_v_cards, leftover_cards) =
        tradable_cards_comparer.get_tradable_and_leftover_cards(&personal_cards, &vendor_cards_map);

    assert_eq!(result_v_cards, expected_cards);
    assert_eq!(
        leftover_cards,
        vec![personal_cards[2].clone(), personal_cards[4].clone()]
    );
}

#[test]
fn should_get_tradable_cards_and_cards_not_found_() {
    let card5 = counterspell_ice_age();
    let vendor_cards_map = group_vendor_cards(vec![card5]);

    let raw_cards = vec![delver_card_1(), delver_card_4()];
    let delver_lense_converter = DelverLenseConverter::new();
    let personal_cards = delver_lense_converter.convert_delver_lense_card_to_personal_card(&raw_cards);

    let tradeable_card4 = magic_card_scraper::TradeableCard {
        name: magic_card_scraper::CardName::new("Counterspell".to_string()).unwrap(),
        set: magic_card_scraper::SetName::new("Ice Age".to_string()).unwrap(),
        foil: false,
        prerelease: false,
        tradeable_vendor: Vendor::Dragonslair,
        trade_in_price: Price::new(50 * NANO, Currency::SEK),
        mcm_price: Price::new(1_240_000_000, Currency::EUR),
        cards_to_trade: 1,
        card_ammount_requested_by_vendor: 2,
        image_url: "https://astraeus.dragonslair.se/images/4026/product".to_string(),
        color: MagicColour::Blue,
        rarity: Rarity::Common,
    };

    let expected_tradable_cards = vec![tradeable_card4];
    let expected_leftover_cards = vec![personal_cards[0].clone()];

    let dl_scraper = DragonslairScraper::new("www.test.com", None);
    let tradable_cards_comparer = TradableCardsComparer::new(dl_scraper);
    let (result_v_cards, leftover_cards) =
        tradable_cards_comparer.get_tradable_and_leftover_cards(&personal_cards, &vendor_cards_map);

    assert_eq!(result_v_cards, expected_tradable_cards);
    assert_eq!(leftover_cards, expected_leftover_cards);
}
