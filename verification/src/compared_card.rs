//! The outcome of comparing one vendor listing against its matched
//! reference record.
use vstd::prelude::*;

use crate::scryfallcard::ScryfallCard;
use crate::vendorcard::VendorCard;

verus! {

#[derive(Debug, PartialEq)]
pub struct ComparedCard {
    pub vendor_card: VendorCard,
    pub scryfall_card: ScryfallCard,
    /// Vendor price minus reference price, in whole kronor; positive
    /// means the vendor is more expensive than the reference.
    pub price_difference_to_cheapest_vendor_card: i32,
}

impl Clone for ComparedCard {
    fn clone(&self) -> (r: ComparedCard)
        ensures
            r == *self,
    {
        ComparedCard {
            vendor_card: self.vendor_card.clone(),
            scryfall_card: self.scryfall_card.clone(),
            price_difference_to_cheapest_vendor_card: self.price_difference_to_cheapest_vendor_card,
        }
    }
}

} // verus!
