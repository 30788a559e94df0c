//! A card of the user's own collection, read from an exported list.
use vstd::prelude::*;

use crate::cardname::CardName;
use crate::price::Price;
use crate::rarity::MagicColour;
use crate::rarity::Rarity;
use crate::setname::SetName;

verus! {

#[derive(Debug, PartialEq)]
pub struct PersonalCard {
    pub name: CardName,
    pub set: SetName,
    pub foil: bool,
    pub price: Price,
    pub count: i8,
    pub color: MagicColour,
    pub rarity: Rarity,
}

impl PersonalCard {
    pub open spec fn wf(&self) -> bool {
        &&& self.name.wf()
        &&& self.set.wf()
        &&& self.price.wf()
    }
}

impl Clone for PersonalCard {
    fn clone(&self) -> (r: PersonalCard)
        ensures
            r == *self,
    {
        PersonalCard {
            name: self.name.clone(),
            set: self.set.clone(),
            foil: self.foil,
            price: self.price,
            count: self.count,
            color: self.color,
            rarity: self.rarity,
        }
    }
}

} // verus!
