//! Aggregation of extracted records into one ordered collection, the laws
//! that hold of it, and the sample pipeline that extracts one record from
//! each sample stand.

use vstd::prelude::*;

use crate::data::CustomerId;
use crate::data::MarketError;
use crate::erased::Erasable;
use crate::market::extract_grocery_data;
use crate::market::is_extraction_of;
use crate::market::FarmersMarketStand;
use crate::market::GroceryItem;
use crate::render::object_json;
use crate::stands::ItemA;
use crate::stands::ItemB;
use crate::stands::StandA;
use crate::stands::StandB;

verus! {

/// The ordered collection of extracted records. Its serialized form is the
/// records in exactly the order they were added.
#[derive(Clone, Debug)]
pub struct GroceryCollection {
    items: Vec<GroceryItem>,
}

impl View for GroceryCollection {
    type V = Seq<GroceryItem>;

    closed spec fn view(&self) -> Seq<GroceryItem> {
        self.items@
    }
}

impl GroceryCollection {
    /// An empty collection.
    pub fn new() -> (c: GroceryCollection)
        ensures
            c@ == Seq::<GroceryItem>::empty(),
    {
        GroceryCollection { items: Vec::new() }
    }

    /// Append one record; everything added earlier keeps its place.
    pub fn add(&mut self, item: GroceryItem)
        ensures
            final(self)@ == old(self)@.push(item),
    {
        self.items.push(item);
    }

    /// Number of records added so far.
    pub fn len(&self) -> (n: usize)
        ensures
            n == self@.len(),
    {
        self.items.len()
    }

    /// The record at position `i` in insertion order.
    pub fn get(&self, i: usize) -> (g: &GroceryItem)
        requires
            i < self@.len(),
        ensures
            *g == self@[i as int],
    {
        &self.items[i]
    }

    /// Give the records up, still in insertion order, for serialization.
    pub fn into_items(self) -> (v: Vec<GroceryItem>)
        ensures
            v@ == self@,
    {
        self.items
    }
}

/// Law: aggregation preserves insertion order. Adding record `a` and then
/// record `b` to any collection state leaves `a`'s record immediately before
/// `b`'s, and every record added earlier unchanged in its place.
pub proof fn lemma_insertion_order_preserved(s: Seq<GroceryItem>, a: GroceryItem, b: GroceryItem)
    ensures
        s.push(a).push(b).len() == s.len() + 2,
        s.push(a).push(b)[s.len() as int] == a,
        s.push(a).push(b)[s.len() as int + 1] == b,
        forall|i: int| 0 <= i < s.len() ==> s.push(a).push(b)[i] == s[i],
{
}

/// Law: records of two different concrete payload kinds coexist in one
/// collection without either's erased payload affecting the other's. After
/// adding a record carrying an erased payload of one kind and a record
/// carrying an erased payload of another, each element's extension field
/// still equals its own payload's structure, and still serializes to its own
/// payload's JSON text, exactly.
pub proof fn lemma_distinct_kinds_coexist<A: Erasable, B: Erasable>(
    s: Seq<GroceryItem>,
    ga: GroceryItem,
    gb: GroceryItem,
    a: A,
    b: B,
)
    requires
        ga.market_specific_data@ == a.erased_view(),
        gb.market_specific_data@ == b.erased_view(),
    ensures
        s.push(ga).push(gb)[s.len() as int].market_specific_data@ == a.erased_view(),
        s.push(ga).push(gb)[s.len() as int + 1].market_specific_data@ == b.erased_view(),
        object_json(s.push(ga).push(gb)[s.len() as int].market_specific_data@) == object_json(
            a.erased_view(),
        ),
        object_json(s.push(ga).push(gb)[s.len() as int + 1].market_specific_data@) == object_json(
            b.erased_view(),
        ),
{
}

/// The one-shot sample pipeline: extract one record from the apple stand for
/// customer 0 and one from the bacon stand for customer 1, in that order.
/// Every sample accessor succeeds, so the run always yields a two-element
/// collection whose records are pinned exactly by the stands' accessors.
pub fn assemble_sample_collection() -> (r: Result<GroceryCollection, MarketError>)
    ensures
        r is Ok,
        (r matches Ok(c) ==> {
            &&& c@.len() == 2
            &&& is_extraction_of::<StandA>(c@[0], CustomerId(0), ItemA)
            &&& is_extraction_of::<StandB>(c@[1], CustomerId(1), ItemB)
        }),
{
    let mut collection = GroceryCollection::new();

    let stand_a = StandA;
    let item_a = extract_grocery_data::<StandA>(CustomerId(0), &stand_a.get_item())?;
    collection.add(item_a);

    let stand_b = StandB;
    let item_b = extract_grocery_data::<StandB>(CustomerId(1), &stand_b.get_item())?;
    collection.add(item_b);

    Ok(collection)
}

} // verus!
