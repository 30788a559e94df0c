use magic_card_scraper::CardName;
use magic_card_scraper::CollectorNumber;
use magic_card_scraper::SetName;
use magic_card_scraper::clean_string;
use magic_card_scraper::clean_word;

#[test]
fn card_name_drops_parenthesized_annotation() {
    let c = CardName::new("Sunken Ruins (Foil)".to_string()).unwrap();
    assert_eq!(c.almost_raw, "Sunken Ruins");
    assert_eq!(c.cleaned, "sunken ruins");
    assert_eq!(c.raw, "Sunken Ruins (Foil)");
}

#[test]
fn card_name_normalization_is_idempotent() {
    let c = CardName::new("  Reaper   King (Promo) ".to_string()).unwrap();
    let again = CardName::new(c.cleaned.clone()).unwrap();
    assert_eq!(c.cleaned, again.cleaned);
    let third = CardName::new(again.cleaned.clone()).unwrap();
    assert_eq!(again.cleaned, third.cleaned);
}

#[test]
fn card_name_collapses_whitespace_and_lowercases() {
    let c = CardName::new("Reaper   King".to_string()).unwrap();
    assert_eq!(c.cleaned, "reaper king");
}

#[test]
fn card_name_rejects_basic_lands() {
    assert!(CardName::new("Mountain".to_string()).is_err());
    assert!(CardName::new("island".to_string()).is_err());
    assert!(CardName::new("Plains".to_string()).is_err());
    assert!(CardName::new("Swamp".to_string()).is_err());
    assert!(CardName::new("Forest".to_string()).is_err());
    // A name that merely contains a land name is fine.
    assert!(CardName::new("Mountain Goat".to_string()).is_ok());
}

#[test]
fn card_name_rejects_empty_normalized_forms() {
    assert!(CardName::new("".to_string()).is_err());
    assert!(CardName::new("   ".to_string()).is_err());
    assert!(CardName::new("(Foil)".to_string()).is_err());
    assert!(CardName::new("!!!".to_string()).is_err());
}

#[test]
fn double_faced_names_match_single_face_listings() {
    let both = CardName::new("Fire // Ice".to_string()).unwrap();
    assert!(both.double_faced);
    let one = CardName::new("Fire".to_string()).unwrap();
    assert!(!one.double_faced);
    assert!(both == one);
    assert!(one == both);
    let other = CardName::new("Lightning Bolt".to_string()).unwrap();
    assert!(!(both == other));
}

#[test]
fn set_name_equality_is_by_normalized_form() {
    let a = SetName::new("Shadowmoor".to_string()).unwrap();
    let b = SetName::new("  SHADOWMOOR ".to_string()).unwrap();
    assert!(a == b);
    let c = SetName::new("Mystery booster retail edition foils".to_string()).unwrap();
    assert!(!(a == c));
}

#[test]
fn set_name_strips_quotes_and_fails_on_empty() {
    let a = SetName::new("Urza's Saga".to_string()).unwrap();
    assert_eq!(a.raw, "Urzas Saga");
    assert_eq!(a.cleaned, "urzas saga");
    assert!(SetName::new("".to_string()).is_err());
    assert!(SetName::new("''".to_string()).is_err());
}

#[test]
fn collector_number_accepts_digit_and_dash_forms() {
    let n = CollectorNumber::new("123").unwrap();
    assert_eq!(n.raw_value, "123");
    let n2 = CollectorNumber::new(" WAR-001 ").unwrap();
    assert_eq!(n2.raw_value, "WAR-001");
    assert_eq!(n2.cleaned_value, "war-001");
    let n3 = CollectorNumber::new("ab_1-2").unwrap();
    assert_eq!(n3.raw_value, "ab_1-2");
}

#[test]
fn collector_number_rejects_malformed_tokens() {
    assert!(CollectorNumber::new("1").is_err());
    assert!(CollectorNumber::new("123456789").is_err());
    assert!(CollectorNumber::new("abcd").is_err());
    assert!(CollectorNumber::new("a-very-long-token").is_err());
    assert!(CollectorNumber::new("12!4-5").is_err());
}

#[test]
fn collector_number_equality_ignores_case() {
    let a = CollectorNumber::new("WAR-001").unwrap();
    let b = CollectorNumber::new("war-001").unwrap();
    assert!(a == b);
}

#[test]
fn clean_string_keeps_alphanumerics_and_whitespace() {
    assert_eq!(clean_string("  \"Beta\"  "), "Beta");
    assert_eq!(clean_string("a-b c!"), "ab c");
}

#[test]
fn clean_word_also_lowercases() {
    assert_eq!(clean_word("  Reaper King! "), "reaper king");
}
