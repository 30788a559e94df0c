//! A personal card a vendor currently buys: what they pay and how
//! many they take.
use vstd::prelude::*;

use crate::cardname::CardName;
use crate::price::Price;
use crate::rarity::MagicColour;
use crate::rarity::Rarity;
use crate::setname::SetName;
use crate::vendor::Vendor;

verus! {

#[derive(Debug, Clone, PartialEq)]
pub struct TradeableCard {
    pub name: CardName,
    pub set: SetName,
    pub foil: bool,
    pub prerelease: bool,
    pub tradeable_vendor: Vendor,
    pub trade_in_price: Price,
    pub mcm_price: Price,
    pub cards_to_trade: i8,
    pub card_ammount_requested_by_vendor: i8,
    pub image_url: String,
    pub color: MagicColour,
    pub rarity: Rarity,
}

/// The image shown when a record carries none.
pub fn image_url_default() -> (r: String)
    ensures
        r@ == "https://upload.wikimedia.org/wikipedia/en/a/aa/Magic_the_gathering-card_back.jpg"@,
{
    String::from_str("https://upload.wikimedia.org/wikipedia/en/a/aa/Magic_the_gathering-card_back.jpg")
}

} // verus!
