//! Cross-source trading-card identity resolution and price comparison.
use vstd::prelude::*;

mod text;
mod cardname;
mod setname;
mod collector_number;
mod currency;
mod price;
mod vendor;
mod rarity;
mod vendorcard;
mod scryfallcard;
mod compared_card;
mod personalcard;
mod tradable_card;
mod delver_lense_card;
mod grouping;
mod comparer;
mod mtg_stocks;
mod scheduler;
mod string_manipulators;
mod card_parser;
mod config;
mod tradable;
mod html;
mod scryfall;
mod helpers;
mod alphaspel;

pub use cardname::CardName;
pub use cardname::lemma_normalize_idempotent;
pub use setname::SetName;
pub use collector_number::CollectorNumber;
pub use currency::Currency;
pub use price::Price;
pub use price::lemma_convert_round_trip;
pub use vendor::Vendor;
pub use rarity::Rarity;
pub use rarity::MagicRarity;
pub use rarity::MagicColour;
pub use vendorcard::VendorCard;
pub use scryfallcard::ScryfallCard;
pub use scryfallcard::Prices;
pub use compared_card::ComparedCard;
pub use personalcard::PersonalCard;
pub use tradable_card::TradeableCard;
pub use tradable_card::image_url_default;
pub use delver_lense_card::DelverLenseCard;
pub use grouping::group_get;
pub use grouping::group_insert;
pub use comparer::find_matching_scryfall_card;
pub use comparer::select_reference_price;
pub use comparer::price_difference_sek;
pub use comparer::build_compared_card;
pub use comparer::plan_comparison;
pub use comparer::plan_bucket;
pub use comparer::plan_all;
pub use comparer::complete_requests;
pub use comparer::finish_comparison;
pub use comparer::group_results;
pub use comparer::Comparer;
pub use comparer::ComparisonStep;
pub use comparer::LivePriceRequest;
pub use comparer::get_cheapest_scryfall_card;
pub use comparer::get_cheapest_foil_scryfall_card;
pub use comparer::lemma_collector_number_priority;
pub use comparer::lemma_absent_identity_yields_nothing;
pub use comparer::lemma_no_requests_when_disabled;
pub use comparer::lemma_run_offline_when_disabled;
pub use mtg_stocks::MtgPriceFetcher;
pub use mtg_stocks::MtgStocksCard;
pub use mtg_stocks::choose_slug;
pub use mtg_stocks::get_card_search_uri;
pub use mtg_stocks::select_price_for_set;
pub use mtg_stocks::lemma_cached_identity_serves_all_sets;
pub use scheduler::DragonslairScraper;
pub use scheduler::FetchScheduler;
pub use scheduler::page_count_from_links;
pub use scheduler::max_page_from_links;
pub use string_manipulators::clean_string;
pub use string_manipulators::clean_word;
pub use card_parser::parse_price;
pub use card_parser::contains_ci;
pub use card_parser::is_foil_name;
pub use card_parser::is_unwanted_name;
pub use card_parser::PriceError;
pub use config::Config;
pub use tradable::get_tradable_and_leftover_cards;
pub use tradable::TradableCardsComparer;
pub use tradable::DelverLenseConverter;
pub use tradable::parse_eur_price;
pub use html::generate_html_header;
pub use html::generate_html_footer;
pub use html::filter_nice_price_cards;
pub use scryfall::RawScryfallEntry;
pub use scryfall::convert_raw_entry;
pub use scryfall::convert_raw_to_domain_cards;
pub use helpers::reaper_king_card_name;
pub use helpers::reaper_king_set_name;
pub use helpers::reaper_king_set_name_2;
pub use helpers::lifecraft_c_name;
pub use helpers::lifecraft_c_set_name;
pub use helpers::cardname_sunken_ruins;
pub use helpers::setname_sunken_ruins;
pub use alphaspel::alphaspel_page_set_endings;

