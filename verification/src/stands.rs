//! Two sample vendor stands, one fruit and one meat, each carrying its own
//! distinct payload type. They exercise the whole pipeline: every accessor
//! succeeds and returns a fixed value, so each item's extraction is pinned
//! exactly by the contracts.

use vstd::prelude::*;

use crate::data::MarketError;
use crate::data::MeatStatus;
use crate::data::Quantity;
use crate::erased::Erasable;
use crate::erased::ErasedData;
use crate::erased::FieldView;
use crate::erased::JsonField;
use crate::erased::JsonScalar;
use crate::erased::ScalarView;
use crate::market::FarmersMarketStand;
use crate::market::FarmersMarketStandItem;

verus! {

/// The 64-bit binary encoding of the quantity every sample accessor reports.
pub const SAMPLE_QUANTITY_BITS: u64 = 0x4024_0000_0000_0000;

/// The apple stand's vendor-specific payload.
#[derive(Clone, Debug)]
pub struct AppleData {
    pub variety: String,
    pub doctors_kept_away: u32,
}

impl Erasable for AppleData {
    open spec fn erased_view(&self) -> Seq<FieldView> {
        seq![
            FieldView { key: "variety"@, value: ScalarView::Text(self.variety@) },
            FieldView {
                key: "doctors_kept_away"@,
                value: ScalarView::Unsigned(self.doctors_kept_away as u64),
            },
        ]
    }

    fn erase(self) -> (r: ErasedData) {
        let mut fields: Vec<JsonField> = Vec::new();
        fields.push(JsonField { key: "variety".to_owned(), value: JsonScalar::Text(self.variety) });
        fields.push(JsonField {
            key: "doctors_kept_away".to_owned(),
            value: JsonScalar::Unsigned(self.doctors_kept_away as u64),
        });
        let r = ErasedData { fields };
        proof {
            assert(r@ =~= self.erased_view());
        }
        r
    }
}

/// The bacon stand's vendor-specific payload.
#[derive(Clone, Debug)]
pub struct BaconData {
    pub farm_of_origin: String,
    pub breakfasts_served: u32,
}

impl Erasable for BaconData {
    open spec fn erased_view(&self) -> Seq<FieldView> {
        seq![
            FieldView { key: "farm_of_origin"@, value: ScalarView::Text(self.farm_of_origin@) },
            FieldView {
                key: "breakfasts_served"@,
                value: ScalarView::Unsigned(self.breakfasts_served as u64),
            },
        ]
    }

    fn erase(self) -> (r: ErasedData) {
        let mut fields: Vec<JsonField> = Vec::new();
        fields.push(JsonField {
            key: "farm_of_origin".to_owned(),
            value: JsonScalar::Text(self.farm_of_origin),
        });
        fields.push(JsonField {
            key: "breakfasts_served".to_owned(),
            value: JsonScalar::Unsigned(self.breakfasts_served as u64),
        });
        let r = ErasedData { fields };
        proof {
            assert(r@ =~= self.erased_view());
        }
        r
    }
}

/// The apple stand.
pub struct StandA;

/// The item the apple stand manufactures.
pub struct ItemA;

impl FarmersMarketStand for StandA {
    type Item = ItemA;

    open spec fn item_spec(&self) -> ItemA {
        ItemA
    }

    fn get_item(&self) -> ItemA {
        ItemA
    }
}

impl FarmersMarketStandItem for ItemA {
    type SpecificData = AppleData;

    open spec fn description_spec(&self) -> Option<Seq<char>> {
        Some("Apples"@)
    }

    open spec fn price_in_cents_spec(&self) -> Option<u64> {
        Some(3u64)
    }

    open spec fn calories_spec(&self) -> Option<Quantity> {
        Some(Quantity { bits: SAMPLE_QUANTITY_BITS })
    }

    open spec fn grams_protein_spec(&self) -> Option<Quantity> {
        Some(Quantity { bits: SAMPLE_QUANTITY_BITS })
    }

    open spec fn grams_carbs_spec(&self) -> Option<Quantity> {
        Some(Quantity { bits: SAMPLE_QUANTITY_BITS })
    }

    open spec fn grams_fat_spec(&self) -> Option<Quantity> {
        Some(Quantity { bits: SAMPLE_QUANTITY_BITS })
    }

    open spec fn grams_alcohol_spec(&self) -> Option<Quantity> {
        Some(Quantity { bits: SAMPLE_QUANTITY_BITS })
    }

    open spec fn meat_status_spec(&self) -> Option<MeatStatus> {
        Some(MeatStatus::Veg)
    }

    open spec fn halal_spec(&self) -> Option<bool> {
        Some(true)
    }

    open spec fn kosher_spec(&self) -> Option<bool> {
        Some(true)
    }

    open spec fn market_specific_data_spec(&self) -> Option<Seq<FieldView>> {
        Some(
            seq![
                FieldView { key: "variety"@, value: ScalarView::Text("Gala"@) },
                FieldView { key: "doctors_kept_away"@, value: ScalarView::Unsigned(30u64) },
            ],
        )
    }

    fn read_description(&self) -> Result<String, MarketError> {
        Ok("Apples".to_owned())
    }

    fn read_price_in_cents(&self) -> Result<u64, MarketError> {
        Ok(3)
    }

    fn read_calories(&self) -> Result<Quantity, MarketError> {
        Ok(Quantity { bits: SAMPLE_QUANTITY_BITS })
    }

    fn read_grams_protein(&self) -> Result<Quantity, MarketError> {
        Ok(Quantity { bits: SAMPLE_QUANTITY_BITS })
    }

    fn read_grams_carbs(&self) -> Result<Quantity, MarketError> {
        Ok(Quantity { bits: SAMPLE_QUANTITY_BITS })
    }

    fn read_grams_fat(&self) -> Result<Quantity, MarketError> {
        Ok(Quantity { bits: SAMPLE_QUANTITY_BITS })
    }

    fn read_grams_alcohol(&self) -> Result<Quantity, MarketError> {
        Ok(Quantity { bits: SAMPLE_QUANTITY_BITS })
    }

    fn read_meat_status(&self) -> Result<MeatStatus, MarketError> {
        Ok(MeatStatus::Veg)
    }

    fn read_halal(&self) -> Result<bool, MarketError> {
        Ok(true)
    }

    fn read_kosher(&self) -> Result<bool, MarketError> {
        Ok(true)
    }

    fn read_market_specific_data(&self) -> (r: Result<AppleData, MarketError>) {
        let d = AppleData { variety: "Gala".to_owned(), doctors_kept_away: 30 };
        proof {
            assert(d.erased_view() =~= self.market_specific_data_spec().unwrap());
        }
        Ok(d)
    }
}

/// The bacon stand.
pub struct StandB;

/// The item the bacon stand manufactures.
pub struct ItemB;

impl FarmersMarketStand for StandB {
    type Item = ItemB;

    open spec fn item_spec(&self) -> ItemB {
        ItemB
    }

    fn get_item(&self) -> ItemB {
        ItemB
    }
}

impl FarmersMarketStandItem for ItemB {
    type SpecificData = BaconData;

    open spec fn description_spec(&self) -> Option<Seq<char>> {
        Some("Bacon"@)
    }

    open spec fn price_in_cents_spec(&self) -> Option<u64> {
        Some(3000u64)
    }

    open spec fn calories_spec(&self) -> Option<Quantity> {
        Some(Quantity { bits: SAMPLE_QUANTITY_BITS })
    }

    open spec fn grams_protein_spec(&self) -> Option<Quantity> {
        Some(Quantity { bits: SAMPLE_QUANTITY_BITS })
    }

    open spec fn grams_carbs_spec(&self) -> Option<Quantity> {
        Some(Quantity { bits: SAMPLE_QUANTITY_BITS })
    }

    open spec fn grams_fat_spec(&self) -> Option<Quantity> {
        Some(Quantity { bits: SAMPLE_QUANTITY_BITS })
    }

    open spec fn grams_alcohol_spec(&self) -> Option<Quantity> {
        Some(Quantity { bits: SAMPLE_QUANTITY_BITS })
    }

    open spec fn meat_status_spec(&self) -> Option<MeatStatus> {
        Some(MeatStatus::Meat)
    }

    open spec fn halal_spec(&self) -> Option<bool> {
        Some(false)
    }

    open spec fn kosher_spec(&self) -> Option<bool> {
        Some(false)
    }

    open spec fn market_specific_data_spec(&self) -> Option<Seq<FieldView>> {
        Some(
            seq![
                FieldView { key: "farm_of_origin"@, value: ScalarView::Text("Stolzfus and Sons"@) },
                FieldView { key: "breakfasts_served"@, value: ScalarView::Unsigned(15u64) },
            ],
        )
    }

    fn read_description(&self) -> Result<String, MarketError> {
        Ok("Bacon".to_owned())
    }

    fn read_price_in_cents(&self) -> Result<u64, MarketError> {
        Ok(3000)
    }

    fn read_calories(&self) -> Result<Quantity, MarketError> {
        Ok(Quantity { bits: SAMPLE_QUANTITY_BITS })
    }

    fn read_grams_protein(&self) -> Result<Quantity, MarketError> {
        Ok(Quantity { bits: SAMPLE_QUANTITY_BITS })
    }

    fn read_grams_carbs(&self) -> Result<Quantity, MarketError> {
        Ok(Quantity { bits: SAMPLE_QUANTITY_BITS })
    }

    fn read_grams_fat(&self) -> Result<Quantity, MarketError> {
        Ok(Quantity { bits: SAMPLE_QUANTITY_BITS })
    }

    fn read_grams_alcohol(&self) -> Result<Quantity, MarketError> {
        Ok(Quantity { bits: SAMPLE_QUANTITY_BITS })
    }

    fn read_meat_status(&self) -> Result<MeatStatus, MarketError> {
        Ok(MeatStatus::Meat)
    }

    fn read_halal(&self) -> Result<bool, MarketError> {
        Ok(false)
    }

    fn read_kosher(&self) -> Result<bool, MarketError> {
        Ok(false)
    }

    fn read_market_specific_data(&self) -> (r: Result<BaconData, MarketError>) {
        let d = BaconData { farm_of_origin: "Stolzfus and Sons".to_owned(), breakfasts_served: 15 };
        proof {
            assert(d.erased_view() =~= self.market_specific_data_spec().unwrap());
        }
        Ok(d)
    }
}

/// A payload with no fields at all: an item kind whose extension data is
/// trivial is still valid, and erasure makes it uniform with every other.
#[derive(Clone, Copy, Debug)]
pub struct EmptyPayload;

impl Erasable for EmptyPayload {
    open spec fn erased_view(&self) -> Seq<FieldView> {
        Seq::empty()
    }

    fn erase(self) -> (r: ErasedData) {
        let r = ErasedData { fields: Vec::new() };
        proof {
            assert(r@ =~= self.erased_view());
        }
        r
    }
}

/// A stand whose item has no price yet: its price read fails, every other
/// read succeeds, and its extension data is trivial. Extracting from it can
/// never produce a record.
pub struct UnpricedStand;

/// The item the unpriced stand manufactures.
pub struct UnpricedItem;

impl FarmersMarketStand for UnpricedStand {
    type Item = UnpricedItem;

    open spec fn item_spec(&self) -> UnpricedItem {
        UnpricedItem
    }

    fn get_item(&self) -> UnpricedItem {
        UnpricedItem
    }
}

impl FarmersMarketStandItem for UnpricedItem {
    type SpecificData = EmptyPayload;

    open spec fn description_spec(&self) -> Option<Seq<char>> {
        Some("Mystery produce"@)
    }

    open spec fn price_in_cents_spec(&self) -> Option<u64> {
        None
    }

    open spec fn calories_spec(&self) -> Option<Quantity> {
        Some(Quantity { bits: 0 })
    }

    open spec fn grams_protein_spec(&self) -> Option<Quantity> {
        Some(Quantity { bits: 0 })
    }

    open spec fn grams_carbs_spec(&self) -> Option<Quantity> {
        Some(Quantity { bits: 0 })
    }

    open spec fn grams_fat_spec(&self) -> Option<Quantity> {
        Some(Quantity { bits: 0 })
    }

    open spec fn grams_alcohol_spec(&self) -> Option<Quantity> {
        Some(Quantity { bits: 0 })
    }

    open spec fn meat_status_spec(&self) -> Option<MeatStatus> {
        Some(MeatStatus::Veg)
    }

    open spec fn halal_spec(&self) -> Option<bool> {
        Some(true)
    }

    open spec fn kosher_spec(&self) -> Option<bool> {
        Some(true)
    }

    open spec fn market_specific_data_spec(&self) -> Option<Seq<FieldView>> {
        Some(Seq::empty())
    }

    fn read_description(&self) -> Result<String, MarketError> {
        Ok("Mystery produce".to_owned())
    }

    fn read_price_in_cents(&self) -> Result<u64, MarketError> {
        Err(MarketError)
    }

    fn read_calories(&self) -> Result<Quantity, MarketError> {
        Ok(Quantity { bits: 0 })
    }

    fn read_grams_protein(&self) -> Result<Quantity, MarketError> {
        Ok(Quantity { bits: 0 })
    }

    fn read_grams_carbs(&self) -> Result<Quantity, MarketError> {
        Ok(Quantity { bits: 0 })
    }

    fn read_grams_fat(&self) -> Result<Quantity, MarketError> {
        Ok(Quantity { bits: 0 })
    }

    fn read_grams_alcohol(&self) -> Result<Quantity, MarketError> {
        Ok(Quantity { bits: 0 })
    }

    fn read_meat_status(&self) -> Result<MeatStatus, MarketError> {
        Ok(MeatStatus::Veg)
    }

    fn read_halal(&self) -> Result<bool, MarketError> {
        Ok(true)
    }

    fn read_kosher(&self) -> Result<bool, MarketError> {
        Ok(true)
    }

    fn read_market_specific_data(&self) -> (r: Result<EmptyPayload, MarketError>) {
        let d = EmptyPayload;
        proof {
            assert(d.erased_view() =~= self.market_specific_data_spec().unwrap());
        }
        Ok(d)
    }
}

} // verus!
