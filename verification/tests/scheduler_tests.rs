use magic_card_scraper::max_page_from_links;
use magic_card_scraper::page_count_from_links;
use magic_card_scraper::parse_price;
use magic_card_scraper::DragonslairScraper;
use magic_card_scraper::FetchScheduler;
use magic_card_scraper::PriceError;
use magic_card_scraper::VendorCard;
use magic_card_scraper::is_foil_name;
use magic_card_scraper::is_unwanted_name;

/// The scheduler never has more tasks in flight than its cap; the
/// third start is refused until one task reports back.
#[test]
fn fetch_scheduler_keeps_the_concurrency_bound() {
    let tasks: Vec<String> = (1..=5).map(|i| format!("page-{i}")).collect();
    let mut s: FetchScheduler<String, VendorCard> = FetchScheduler::new(2, tasks);
    let mut max_in_flight: usize = 0;
    let mut started: usize = 0;
    let mut completed: usize = 0;
    loop {
        while let Some(_task) = s.start_next() {
            started += 1;
            assert!(s.in_flight <= s.limit, "concurrency bound violated");
            max_in_flight = max_in_flight.max(s.in_flight);
        }
        if s.in_flight == 0 {
            break;
        }
        // One in-flight page reports back; a failed page would hand
        // back an empty vector the same way.
        s.complete(Vec::new());
        completed += 1;
    }
    assert!(s.is_done());
    assert_eq!(started, 5);
    assert_eq!(completed, 5);
    assert_eq!(max_in_flight, 2);
}

#[test]
fn failed_pages_contribute_no_records_and_stop_nothing() {
    let mut s: FetchScheduler<String, u32> = FetchScheduler::new(1, vec!["a".into(), "b".into()]);
    let _ = s.start_next().unwrap();
    s.complete(Vec::new()); // page failed: zero records
    let _ = s.start_next().unwrap();
    s.complete(vec![7, 8]); // page succeeded
    assert!(s.is_done());
    assert_eq!(s.results, vec![7, 8]);
}

#[test]
fn page_count_needs_three_pagination_links() {
    // Fewer than three links: no pagination, one page.
    assert_eq!(page_count_from_links(&vec![]), 1);
    assert_eq!(page_count_from_links(&vec!["1".to_string(), "2".to_string()]), 1);
    // The third link from the end names the last page.
    let links = vec![
        "1".to_string(),
        "2".to_string(),
        "51".to_string(),
        "next".to_string(),
        "last".to_string(),
    ];
    assert_eq!(page_count_from_links(&links), 51);
    // A link that does not parse under-counts to one page.
    let bad = vec![
        "1".to_string(),
        "x".to_string(),
        "next".to_string(),
    ];
    assert_eq!(page_count_from_links(&bad), 1);
}

#[test]
fn max_page_takes_the_largest_numbered_link() {
    let links = vec![
        "prev".to_string(),
        " 1 ".to_string(),
        "2".to_string(),
        "17".to_string(),
        "next".to_string(),
    ];
    assert_eq!(max_page_from_links(&links), 17);
    assert_eq!(max_page_from_links(&vec!["prev".to_string()]), 1);
    assert_eq!(max_page_from_links(&vec![]), 1);
}

#[test]
fn generate_card_urls_walks_every_page_of_a_partition() {
    let s = DragonslairScraper::new("https://shop.example.invalid", None);
    let urls = s.generate_card_urls(3, 2);
    assert_eq!(
        urls,
        vec![
            "https://shop.example.invalid/product/magic/card-singles/store:kungsholmstorg/cmc-2/1"
                .to_string(),
            "https://shop.example.invalid/product/magic/card-singles/store:kungsholmstorg/cmc-2/2"
                .to_string(),
            "https://shop.example.invalid/product/magic/card-singles/store:kungsholmstorg/cmc-2/3"
                .to_string(),
        ]
    );
    assert_eq!(
        s.discovery_url(0),
        "https://shop.example.invalid/product/magic/card-singles/store:kungsholmstorg/cmc-0/0"
    );
    assert_eq!(s.cmcs_available.len(), 16);
}

#[test]
fn parse_price_reads_storefront_cells() {
    assert_eq!(parse_price("100 kr").unwrap(), 100);
    assert_eq!(parse_price("Slut, 250 kr").unwrap(), 250);
    assert_eq!(parse_price("Fullt, 25 kr").unwrap(), 25);
    assert_eq!(parse_price(" 0 kr ").unwrap(), 0);
}

#[test]
fn parse_price_distinguishes_its_errors() {
    assert_eq!(parse_price(" - "), Err(PriceError::NoPriceAvailable));
    assert_eq!(parse_price("abc"), Err(PriceError::NotANumber));
    assert_eq!(parse_price(""), Err(PriceError::NotANumber));
    assert_eq!(parse_price("12.5 kr"), Err(PriceError::NotANumber));
}

#[test]
fn listing_annotations_are_recognized() {
    assert!(is_foil_name("Reaper King (Foil)"));
    assert!(is_foil_name("Reaper King (foil)"));
    assert!(is_foil_name("Reaper King (Etched Foil)"));
    assert!(!is_foil_name("Reaper King"));
    assert!(is_unwanted_name("Reaper King (Skadad)"));
    assert!(is_unwanted_name("Squirrel [Token]"));
    assert!(!is_unwanted_name("Reaper King"));
}
