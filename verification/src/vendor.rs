//! The storefronts records can come from.
use vstd::prelude::*;

verus! {

#[derive(Debug, PartialEq, Eq, Structural, Clone, Copy)]
pub enum Vendor {
    Dragonslair,
    Alphaspel,
    Cardmarket,
}

pub open spec fn vendor_label_spec(v: Vendor) -> Seq<char> {
    match v {
        Vendor::Dragonslair => "Dragonslair"@,
        Vendor::Alphaspel => "Alphaspel"@,
        Vendor::Cardmarket => "Cardmarket"@,
    }
}

impl Vendor {
    /// The vendor's display name.
    pub fn label(&self) -> (r: String)
        ensures
            r@ == vendor_label_spec(*self),
    {
        match self {
            Vendor::Dragonslair => String::from_str("Dragonslair"),
            Vendor::Alphaspel => String::from_str("Alphaspel"),
            Vendor::Cardmarket => String::from_str("Cardmarket"),
        }
    }
}

} // verus!
