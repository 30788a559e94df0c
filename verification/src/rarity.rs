//! Rarity and colour tags carried by personal-collection records.
use vstd::prelude::*;

verus! {

#[derive(Debug, PartialEq, Eq, Structural, Clone, Copy)]
pub enum Rarity {
    Common,
    Uncommon,
    Rare,
    Mythic,
}

#[derive(Debug, PartialEq, Eq, Structural, Clone, Copy)]
pub enum MagicRarity {
    Common,
    Uncommon,
    Rare,
    Mythic,
}

#[derive(Debug, PartialEq, Eq, Structural, Clone, Copy)]
pub enum MagicColour {
    White,
    Blue,
    Black,
    Red,
    Green,
    Colorless,
    Multicolored,
}

} // verus!
