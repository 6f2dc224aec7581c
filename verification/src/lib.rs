//! A farmers-market catalog: vendor stands produce items that all expose one
//! uniform commerce schema plus a vendor-specific payload; the library
//! normalizes any conforming item into a single uniform record and gathers
//! the records into one ordered, serializable collection.

pub mod collection;
pub mod data;
pub mod erased;
pub mod market;
pub mod render;
pub mod stands;

pub use collection::assemble_sample_collection;
pub use collection::GroceryCollection;
pub use data::CustomerId;
pub use data::MarketError;
pub use data::MeatStatus;
pub use data::Quantity;
pub use erased::Erasable;
pub use erased::ErasedData;
pub use erased::JsonField;
pub use erased::JsonScalar;
pub use market::extract_grocery_data;
pub use market::FarmersMarketStand;
pub use market::FarmersMarketStandItem;
pub use market::GroceryItem;
