//! One row of an exported collection list, exactly as the export
//! carries it: every column still a string.
use vstd::prelude::*;

verus! {

#[allow(non_snake_case)]
#[derive(Debug, Clone, PartialEq)]
pub struct DelverLenseCard {
    pub Name: String,
    pub Foil: String,
    pub Edition: String,
    pub Price: String,
    pub Quantity: String,
    pub Color: String,
    pub Rarity: String,
}

} // verus!
