//! The two-level polymorphism contract (stand produces item, item exposes the
//! uniform schema) and the single normalization algorithm that turns any
//! conforming item into the uniform `GroceryItem` record.

use vstd::prelude::*;

use crate::data::CustomerId;
use crate::data::MarketError;
use crate::data::MeatStatus;
use crate::data::Quantity;
use crate::erased::Erasable;
use crate::erased::ErasedData;
use crate::erased::FieldView;

verus! {

/// The uniform readable surface every marketable item exposes. Each accessor
/// is a pure read that may fail; its spec-level counterpart says what one
/// read returns, `None` standing for a failing read. An implementer also
/// declares the one vendor-specific payload type its items carry.
pub trait FarmersMarketStandItem: Sized {
    /// The vendor-specific payload type bound to this item kind.
    type SpecificData: Erasable;

    spec fn description_spec(&self) -> Option<Seq<char>>;

    spec fn price_in_cents_spec(&self) -> Option<u64>;

    spec fn calories_spec(&self) -> Option<Quantity>;

    spec fn grams_protein_spec(&self) -> Option<Quantity>;

    spec fn grams_carbs_spec(&self) -> Option<Quantity>;

    spec fn grams_fat_spec(&self) -> Option<Quantity>;

    spec fn grams_alcohol_spec(&self) -> Option<Quantity>;

    spec fn meat_status_spec(&self) -> Option<MeatStatus>;

    spec fn halal_spec(&self) -> Option<bool>;

    spec fn kosher_spec(&self) -> Option<bool>;

    /// The serialized structure of the payload a successful read returns,
    /// `None` when the read fails.
    spec fn market_specific_data_spec(&self) -> Option<Seq<FieldView>>;

    fn read_description(&self) -> (r: Result<String, MarketError>)
        ensures
            match r {
                Ok(v) => self.description_spec() == Some(v@),
                Err(_) => self.description_spec() is None,
            },
    ;

    fn read_price_in_cents(&self) -> (r: Result<u64, MarketError>)
        ensures
            match r {
                Ok(v) => self.price_in_cents_spec() == Some(v),
                Err(_) => self.price_in_cents_spec() is None,
            },
    ;

    fn read_calories(&self) -> (r: Result<Quantity, MarketError>)
        ensures
            match r {
                Ok(v) => self.calories_spec() == Some(v),
                Err(_) => self.calories_spec() is None,
            },
    ;

    fn read_grams_protein(&self) -> (r: Result<Quantity, MarketError>)
        ensures
            match r {
                Ok(v) => self.grams_protein_spec() == Some(v),
                Err(_) => self.grams_protein_spec() is None,
            },
    ;

    fn read_grams_carbs(&self) -> (r: Result<Quantity, MarketError>)
        ensures
            match r {
                Ok(v) => self.grams_carbs_spec() == Some(v),
                Err(_) => self.grams_carbs_spec() is None,
            },
    ;

    fn read_grams_fat(&self) -> (r: Result<Quantity, MarketError>)
        ensures
            match r {
                Ok(v) => self.grams_fat_spec() == Some(v),
                Err(_) => self.grams_fat_spec() is None,
            },
    ;

    fn read_grams_alcohol(&self) -> (r: Result<Quantity, MarketError>)
        ensures
            match r {
                Ok(v) => self.grams_alcohol_spec() == Some(v),
                Err(_) => self.grams_alcohol_spec() is None,
            },
    ;

    fn read_meat_status(&self) -> (r: Result<MeatStatus, MarketError>)
        ensures
            match r {
                Ok(v) => self.meat_status_spec() == Some(v),
                Err(_) => self.meat_status_spec() is None,
            },
    ;

    fn read_halal(&self) -> (r: Result<bool, MarketError>)
        ensures
            match r {
                Ok(v) => self.halal_spec() == Some(v),
                Err(_) => self.halal_spec() is None,
            },
    ;

    fn read_kosher(&self) -> (r: Result<bool, MarketError>)
        ensures
            match r {
                Ok(v) => self.kosher_spec() == Some(v),
                Err(_) => self.kosher_spec() is None,
            },
    ;

    fn read_market_specific_data(&self) -> (r: Result<Self::SpecificData, MarketError>)
        ensures
            match r {
                Ok(v) => self.market_specific_data_spec() == Some(v.erased_view()),
                Err(_) => self.market_specific_data_spec() is None,
            },
    ;
}

/// The factory surface of a vendor stand: it manufactures exactly one item of
/// the stand's associated item kind per call, and cannot fail doing so.
pub trait FarmersMarketStand: Sized {
    /// The item kind this stand manufactures.
    type Item: FarmersMarketStandItem;

    /// The one item this stand hands out.
    spec fn item_spec(&self) -> Self::Item;

    fn get_item(&self) -> (item: Self::Item)
        ensures
            item == self.item_spec(),
    ;
}

/// The normalized output record. Every `GroceryItem` is fully populated: it
/// is assembled atomically by `extract_grocery_data` or not at all.
#[derive(Clone, Debug)]
pub struct GroceryItem {
    pub description: String,
    pub customer_id: CustomerId,
    pub price_in_cents: u64,
    pub calories: Quantity,
    pub grams_protein: Quantity,
    pub grams_carbs: Quantity,
    pub grams_fat: Quantity,
    pub grams_alcohol: Quantity,
    pub meat_status: MeatStatus,
    pub halal: bool,
    pub kosher: bool,
    pub market_specific_data: ErasedData,
}

/// True when every accessor of `item` succeeds; extraction returns a record
/// exactly on these items.
pub open spec fn all_reads_succeed<S: FarmersMarketStand>(item: S::Item) -> bool {
    &&& item.description_spec() is Some
    &&& item.price_in_cents_spec() is Some
    &&& item.calories_spec() is Some
    &&& item.grams_protein_spec() is Some
    &&& item.grams_carbs_spec() is Some
    &&& item.grams_fat_spec() is Some
    &&& item.grams_alcohol_spec() is Some
    &&& item.meat_status_spec() is Some
    &&& item.halal_spec() is Some
    &&& item.kosher_spec() is Some
    &&& item.market_specific_data_spec() is Some
}

/// True when `g` is exactly the record the accessors of `item` describe, for
/// the given customer: every field equal to the value its accessor returns,
/// the payload erased but structurally unchanged.
pub open spec fn is_extraction_of<S: FarmersMarketStand>(
    g: GroceryItem,
    customer_id: CustomerId,
    item: S::Item,
) -> bool {
    &&& item.description_spec() == Some(g.description@)
    &&& g.customer_id == customer_id
    &&& item.price_in_cents_spec() == Some(g.price_in_cents)
    &&& item.calories_spec() == Some(g.calories)
    &&& item.grams_protein_spec() == Some(g.grams_protein)
    &&& item.grams_carbs_spec() == Some(g.grams_carbs)
    &&& item.grams_fat_spec() == Some(g.grams_fat)
    &&& item.grams_alcohol_spec() == Some(g.grams_alcohol)
    &&& item.meat_status_spec() == Some(g.meat_status)
    &&& item.halal_spec() == Some(g.halal)
    &&& item.kosher_spec() == Some(g.kosher)
    &&& item.market_specific_data_spec() == Some(g.market_specific_data@)
}

/// The one code path that constructs a `GroceryItem`: invoke every accessor
/// of `item` in a fixed order, abort on the first failure, and on full
/// success assemble the record with the payload moved behind the erasure
/// boundary. No partial record is ever produced.
pub fn extract_grocery_data<S: FarmersMarketStand>(
    customer_id: CustomerId,
    item: &S::Item,
) -> (r: Result<GroceryItem, MarketError>)
    ensures
        r is Ok <==> all_reads_succeed::<S>(*item),
        (r matches Ok(g) ==> is_extraction_of::<S>(g, customer_id, *item)),
{
    let description = item.read_description()?;
    let price_in_cents = item.read_price_in_cents()?;
    let calories = item.read_calories()?;
    let grams_protein = item.read_grams_protein()?;
    let grams_carbs = item.read_grams_carbs()?;
    let grams_fat = item.read_grams_fat()?;
    let grams_alcohol = item.read_grams_alcohol()?;
    let meat_status = item.read_meat_status()?;
    let halal = item.read_halal()?;
    let kosher = item.read_kosher()?;
    let specific = item.read_market_specific_data()?;
    Ok(GroceryItem {
        description,
        customer_id,
        price_in_cents,
        calories,
        grams_protein,
        grams_carbs,
        grams_fat,
        grams_alcohol,
        meat_status,
        halal,
        kosher,
        market_specific_data: specific.erase(),
    })
}

} // verus!
