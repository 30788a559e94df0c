//! A record of the bulk reference-pricing feed: one printing of a
//! card, with its per-finish reference prices.
use vstd::prelude::*;

use crate::cardname::CardName;
use crate::collector_number::CollectorNumber;
use crate::price::Price;
use crate::setname::SetName;

verus! {

#[derive(Debug, PartialEq)]
pub struct Prices {
    pub eur: Option<Price>,
    pub eur_foil: Option<Price>,
}

impl Prices {
    pub open spec fn wf(&self) -> bool {
        &&& match self.eur {
            Some(p) => p.wf(),
            None => true,
        }
        &&& match self.eur_foil {
            Some(p) => p.wf(),
            None => true,
        }
    }
}

#[derive(Debug, PartialEq)]
pub struct ScryfallCard {
    pub name: CardName,
    pub set: SetName,
    pub image_url: String,
    pub prices: Prices,
    pub collector_number: Option<CollectorNumber>,
}

impl ScryfallCard {
    pub open spec fn wf(&self) -> bool {
        &&& self.name.wf()
        &&& self.set.wf()
        &&& self.prices.wf()
        &&& match self.collector_number {
            Some(c) => c.wf(),
            None => true,
        }
    }
}

impl Clone for Prices {
    fn clone(&self) -> (r: Prices)
        ensures
            r == *self,
    {
        Prices { eur: self.eur, eur_foil: self.eur_foil }
    }
}

impl Clone for ScryfallCard {
    fn clone(&self) -> (r: ScryfallCard)
        ensures
            r == *self,
    {
        ScryfallCard {
            name: self.name.clone(),
            set: self.set.clone(),
            image_url: self.image_url.clone(),
            prices: self.prices.clone(),
            collector_number: match &self.collector_number {
                Some(c) => Some(c.clone()),
                None => None,
            },
        }
    }
}

} // verus!
