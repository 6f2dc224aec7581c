use farmers_market::assemble_sample_collection;
use farmers_market::extract_grocery_data;
use farmers_market::CustomerId;
use farmers_market::Erasable;
use farmers_market::ErasedData;
use farmers_market::FarmersMarketStand;
use farmers_market::GroceryCollection;
use farmers_market::GroceryItem;
use farmers_market::JsonScalar;
use farmers_market::MarketError;
use farmers_market::MeatStatus;
use farmers_market::Quantity;
use farmers_market::stands::AppleData;
use farmers_market::stands::BaconData;
use farmers_market::stands::EmptyPayload;
use farmers_market::stands::StandA;
use farmers_market::stands::StandB;
use farmers_market::stands::UnpricedStand;

use serde_json::Number;
use serde_json::Value;

fn scalar_to_value(s: &JsonScalar) -> Value {
    match s {
        JsonScalar::Text(t) => Value::String(t.clone()),
        JsonScalar::Unsigned(n) => Value::Number(Number::from(*n)),
        JsonScalar::Truth(b) => Value::Bool(*b),
    }
}

fn erased_to_value(e: &ErasedData) -> Value {
    let mut m = serde_json::Map::new();
    for f in &e.fields {
        m.insert(f.key.clone(), scalar_to_value(&f.value));
    }
    Value::Object(m)
}

fn quantity_to_value(q: &Quantity) -> Value {
    Value::Number(Number::from_f64(f64::from_bits(q.bits)).unwrap())
}

fn record_to_value(g: &GroceryItem) -> Value {
    let mut m = serde_json::Map::new();
    m.insert("description".to_string(), Value::String(g.description.clone()));
    m.insert(
        "customer_id".to_string(),
        Value::Number(Number::from(g.customer_id.0)),
    );
    m.insert(
        "price_in_cents".to_string(),
        Value::Number(Number::from(g.price_in_cents)),
    );
    m.insert("calories".to_string(), quantity_to_value(&g.calories));
    m.insert("grams_protein".to_string(), quantity_to_value(&g.grams_protein));
    m.insert("grams_carbs".to_string(), quantity_to_value(&g.grams_carbs));
    m.insert("grams_fat".to_string(), quantity_to_value(&g.grams_fat));
    m.insert("grams_alcohol".to_string(), quantity_to_value(&g.grams_alcohol));
    m.insert("meat_status".to_string(), Value::String(g.meat_status.tag()));
    m.insert("halal".to_string(), Value::Bool(g.halal));
    m.insert("kosher".to_string(), Value::Bool(g.kosher));
    m.insert(
        "market_specific_data".to_string(),
        erased_to_value(&g.market_specific_data),
    );
    Value::Object(m)
}

fn collection_to_value(c: GroceryCollection) -> Value {
    Value::Array(c.into_items().iter().map(record_to_value).collect())
}

#[test]
fn extraction_maps_accessor_values() {
    let stand = StandA;
    let item = stand.get_item();
    let g = extract_grocery_data::<StandA>(CustomerId(0), &item).unwrap();
    assert_eq!(g.description, "Apples");
    assert_eq!(g.customer_id, CustomerId(0));
    assert_eq!(g.price_in_cents, 3);
    assert_eq!(g.calories.bits, (10.0f64).to_bits());
    assert_eq!(g.grams_protein.bits, (10.0f64).to_bits());
    assert_eq!(g.grams_carbs.bits, (10.0f64).to_bits());
    assert_eq!(g.grams_fat.bits, (10.0f64).to_bits());
    assert_eq!(g.grams_alcohol.bits, (10.0f64).to_bits());
    assert_eq!(g.meat_status, MeatStatus::Veg);
    assert!(g.halal);
    assert!(g.kosher);
    let fields = &g.market_specific_data.fields;
    assert_eq!(fields.len(), 2);
    assert_eq!(fields[0].key, "variety");
    assert!(matches!(&fields[0].value, JsonScalar::Text(t) if t == "Gala"));
    assert_eq!(fields[1].key, "doctors_kept_away");
    assert!(matches!(&fields[1].value, JsonScalar::Unsigned(30)));
}

#[test]
fn extraction_is_atomic_on_failure() {
    let stand = UnpricedStand;
    let item = stand.get_item();
    let r = extract_grocery_data::<UnpricedStand>(CustomerId(9), &item);
    assert!(matches!(r, Err(MarketError)));
}

#[test]
fn erasure_is_serialization_transparent() {
    let apple = AppleData {
        variety: "Gala".to_string(),
        doctors_kept_away: 30,
    };
    let erased = apple.erase();
    let mut direct = serde_json::Map::new();
    direct.insert("variety".to_string(), Value::String("Gala".to_string()));
    direct.insert("doctors_kept_away".to_string(), Value::Number(Number::from(30u64)));
    assert_eq!(
        serde_json::to_string(&erased_to_value(&erased)).unwrap(),
        serde_json::to_string(&Value::Object(direct)).unwrap(),
    );

    let bacon = BaconData {
        farm_of_origin: "Stolzfus and Sons".to_string(),
        breakfasts_served: 15,
    };
    let erased = bacon.erase();
    let mut direct = serde_json::Map::new();
    direct.insert(
        "farm_of_origin".to_string(),
        Value::String("Stolzfus and Sons".to_string()),
    );
    direct.insert("breakfasts_served".to_string(), Value::Number(Number::from(15u64)));
    assert_eq!(
        serde_json::to_string(&erased_to_value(&erased)).unwrap(),
        serde_json::to_string(&Value::Object(direct)).unwrap(),
    );
}

#[test]
fn collection_preserves_insertion_order() {
    let c = assemble_sample_collection().unwrap();
    assert_eq!(c.len(), 2);
    assert_eq!(c.get(0).customer_id, CustomerId(0));
    assert_eq!(c.get(1).customer_id, CustomerId(1));

    let mut reversed = GroceryCollection::new();
    let b = extract_grocery_data::<StandB>(CustomerId(4), &StandB.get_item()).unwrap();
    reversed.add(b);
    let a = extract_grocery_data::<StandA>(CustomerId(5), &StandA.get_item()).unwrap();
    reversed.add(a);
    assert_eq!(reversed.get(0).description, "Bacon");
    assert_eq!(reversed.get(1).description, "Apples");
}

#[test]
fn distinct_kinds_coexist_in_one_collection() {
    let c = assemble_sample_collection().unwrap();
    let doc = collection_to_value(c);
    let arr = doc.as_array().unwrap();
    assert_eq!(arr.len(), 2);
    let apple_ext = arr[0]["market_specific_data"].as_object().unwrap();
    let bacon_ext = arr[1]["market_specific_data"].as_object().unwrap();
    assert_eq!(apple_ext.len(), 2);
    assert_eq!(apple_ext["variety"], Value::String("Gala".to_string()));
    assert_eq!(apple_ext["doctors_kept_away"], Value::Number(Number::from(30u64)));
    assert!(!apple_ext.contains_key("farm_of_origin"));
    assert_eq!(bacon_ext.len(), 2);
    assert_eq!(
        bacon_ext["farm_of_origin"],
        Value::String("Stolzfus and Sons".to_string())
    );
    assert_eq!(bacon_ext["breakfasts_served"], Value::Number(Number::from(15u64)));
    assert!(!bacon_ext.contains_key("variety"));
}

#[test]
fn sample_scenario_two_element_document() {
    let c = assemble_sample_collection().unwrap();
    let doc = collection_to_value(c);
    let arr = doc.as_array().unwrap();
    assert_eq!(arr.len(), 2);

    assert_eq!(arr[0]["description"], Value::String("Apples".to_string()));
    assert_eq!(arr[0]["customer_id"], Value::Number(Number::from(0u64)));
    assert_eq!(arr[0]["price_in_cents"], Value::Number(Number::from(3u64)));
    assert_eq!(arr[0]["meat_status"], Value::String("Veg".to_string()));
    assert_eq!(arr[0]["halal"], Value::Bool(true));
    assert_eq!(arr[0]["kosher"], Value::Bool(true));

    assert_eq!(arr[1]["description"], Value::String("Bacon".to_string()));
    assert_eq!(arr[1]["customer_id"], Value::Number(Number::from(1u64)));
    assert_eq!(arr[1]["price_in_cents"], Value::Number(Number::from(3000u64)));
    assert_eq!(arr[1]["meat_status"], Value::String("Meat".to_string()));
    assert_eq!(arr[1]["halal"], Value::Bool(false));
    assert_eq!(arr[1]["kosher"], Value::Bool(false));
}

#[test]
fn empty_payload_is_still_valid() {
    let erased = EmptyPayload.erase();
    assert_eq!(erased.field_count(), 0);
    assert_eq!(serde_json::to_string(&erased_to_value(&erased)).unwrap(), "{}");
    assert_eq!(erased.to_json_text(), "{}");
}

#[test]
fn rendered_text_matches_reference_serializer() {
    let apple = AppleData {
        variety: "Gala".to_string(),
        doctors_kept_away: 30,
    };
    let erased = apple.erase();
    assert_eq!(
        erased.to_json_text(),
        serde_json::to_string(&erased_to_value(&erased)).unwrap(),
    );
    assert_eq!(
        erased.to_json_text(),
        "{\"variety\":\"Gala\",\"doctors_kept_away\":30}",
    );

    let bacon = BaconData {
        farm_of_origin: "Stolzfus and Sons".to_string(),
        breakfasts_served: 15,
    };
    let erased = bacon.erase();
    assert_eq!(
        erased.to_json_text(),
        serde_json::to_string(&erased_to_value(&erased)).unwrap(),
    );
}

#[test]
fn rendered_text_escapes_like_reference_serializer() {
    let tricky = AppleData {
        variety: "a\"b\\c\nd\te\rf\u{08}g\u{0C}h\u{01}i\u{1F}j\u{7F}k çäé🍎".to_string(),
        doctors_kept_away: 0,
    };
    let erased = tricky.erase();
    assert_eq!(
        erased.to_json_text(),
        serde_json::to_string(&erased_to_value(&erased)).unwrap(),
    );
}

#[test]
fn rendered_numbers_and_truth_values_match_reference_serializer() {
    let erased = ErasedData {
        fields: vec![
            farmers_market::JsonField {
                key: "zero".to_string(),
                value: JsonScalar::Unsigned(0),
            },
            farmers_market::JsonField {
                key: "largest".to_string(),
                value: JsonScalar::Unsigned(u64::MAX),
            },
            farmers_market::JsonField {
                key: "yes".to_string(),
                value: JsonScalar::Truth(true),
            },
            farmers_market::JsonField {
                key: "no".to_string(),
                value: JsonScalar::Truth(false),
            },
        ],
    };
    assert_eq!(
        erased.to_json_text(),
        serde_json::to_string(&erased_to_value(&erased)).unwrap(),
    );
    assert_eq!(
        erased.to_json_text(),
        "{\"zero\":0,\"largest\":18446744073709551615,\"yes\":true,\"no\":false}",
    );
}

#[test]
fn meat_status_tags() {
    assert_eq!(MeatStatus::Veg.tag(), "Veg");
    assert_eq!(MeatStatus::Fish.tag(), "Fish");
    assert_eq!(MeatStatus::Meat.tag(), "Meat");
}

#[test]
fn quantity_keeps_its_encoding() {
    let q = Quantity::from_bits((2.5f64).to_bits());
    assert_eq!(f64::from_bits(q.bits), 2.5f64);
}

#[test]
fn market_error_describes_itself() {
    assert_eq!(MarketError.describe(), "market operation failed");
}
