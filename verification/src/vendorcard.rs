//! A single listing scraped from a storefront.
use vstd::prelude::*;

use crate::cardname::CardName;
use crate::collector_number::CollectorNumber;
use crate::price::Price;
use crate::setname::SetName;
use crate::vendor::Vendor;

verus! {

/// Bound on the whole-unit trade-in price a vendor record may carry,
/// so that it can be re-expressed in nano-units.
pub const MAX_TRADE_IN_PRICE: i32 = 100000000;

#[derive(Debug, PartialEq)]
pub struct VendorCard {
    pub name: CardName,
    pub vendor: Vendor,
    pub foil: bool,
    pub image_url: String,
    pub extended_art: bool,
    pub prerelease: bool,
    pub showcase: bool,
    pub set: SetName,
    pub price: Price,
    /// Whole currency units the vendor pays when buying the card in.
    pub trade_in_price: i32,
    pub current_stock: i8,
    pub max_stock: i8,
    pub collector_number: Option<CollectorNumber>,
}

impl VendorCard {
    pub open spec fn wf(&self) -> bool {
        &&& self.name.wf()
        &&& self.set.wf()
        &&& self.price.wf()
        &&& match self.collector_number {
            Some(c) => c.wf(),
            None => true,
        }
        &&& 0 <= self.trade_in_price <= MAX_TRADE_IN_PRICE
        &&& 0 <= self.current_stock
    }
}

impl Clone for VendorCard {
    fn clone(&self) -> (r: VendorCard)
        ensures
            r == *self,
    {
        VendorCard {
            name: self.name.clone(),
            vendor: self.vendor,
            foil: self.foil,
            image_url: self.image_url.clone(),
            extended_art: self.extended_art,
            prerelease: self.prerelease,
            showcase: self.showcase,
            set: self.set.clone(),
            price: self.price,
            trade_in_price: self.trade_in_price,
            current_stock: self.current_stock,
            max_stock: self.max_stock,
            collector_number: match &self.collector_number {
                Some(c) => Some(c.clone()),
                None => None,
            },
        }
    }
}

} // verus!
