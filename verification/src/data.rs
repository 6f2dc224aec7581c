//! Basic value types shared by the whole library: the customer identifier,
//! the meat classification, the opaque numeric quantity, and the one error
//! kind that every fallible operation reports.

use vstd::prelude::*;

verus! {

/// Classification of an item's animal-product content.
#[derive(Clone, Copy, Debug, PartialEq, Eq, Structural)]
pub enum MeatStatus {
    Veg,
    Fish,
    Meat,
}

impl MeatStatus {
    /// The string tag under which this classification is serialized.
    pub open spec fn tag_spec(self) -> Seq<char> {
        match self {
            MeatStatus::Veg => "Veg"@,
            MeatStatus::Fish => "Fish"@,
            MeatStatus::Meat => "Meat"@,
        }
    }

    /// Render the classification as its serialized string tag.
    pub fn tag(&self) -> (s: String)
        ensures
            s@ == self.tag_spec(),
    {
        match self {
            MeatStatus::Veg => "Veg".to_owned(),
            MeatStatus::Fish => "Fish".to_owned(),
            MeatStatus::Meat => "Meat".to_owned(),
        }
    }
}

/// Opaque identifier of the customer an extraction is made for.
#[derive(Clone, Copy, Debug, PartialEq, Eq, Structural)]
pub struct CustomerId(pub u64);

/// A numeric quantity carried opaquely through the pipeline as the 64-bit
/// binary encoding its producer chose; the library never computes on it,
/// it only moves it from an accessor into the uniform record.
#[derive(Clone, Copy, Debug, PartialEq, Eq, Structural)]
pub struct Quantity {
    pub bits: u64,
}

impl Quantity {
    /// Wrap a 64-bit encoded quantity.
    pub fn from_bits(bits: u64) -> (q: Quantity)
        ensures
            q.bits == bits,
    {
        Quantity { bits }
    }
}

/// The single failure kind: some read or serialization step did not succeed.
/// The library does not distinguish sub-kinds; any failure aborts the
/// in-progress extraction.
#[derive(Clone, Copy, Debug, PartialEq, Eq, Structural)]
pub struct MarketError;

impl MarketError {
    /// A human-readable account of the failure.
    pub fn describe(&self) -> (s: String)
        ensures
            s@ == "market operation failed"@,
    {
        "market operation failed".to_owned()
    }
}

} // verus!
