//! The type-erasure boundary. A vendor-specific payload is a record of named
//! scalar fields whose concrete Rust type differs per stand kind; erasing it
//! moves it into `ErasedData`, one fixed handle type that keeps exactly the
//! payload's serialized structure (field names, order and values) while
//! discarding its static type. Heterogeneous payloads can then coexist in one
//! homogeneous collection and be serialized uniformly.

use vstd::prelude::*;

verus! {

/// Spec-level shape of one scalar payload value.
pub ghost enum ScalarView {
    Text(Seq<char>),
    Unsigned(u64),
    Truth(bool),
}

/// Spec-level shape of one named payload field.
pub ghost struct FieldView {
    pub key: Seq<char>,
    pub value: ScalarView,
}

/// One scalar value of an erased payload.
#[derive(Clone, Debug)]
pub enum JsonScalar {
    Text(String),
    Unsigned(u64),
    Truth(bool),
}

impl View for JsonScalar {
    type V = ScalarView;

    open spec fn view(&self) -> ScalarView {
        match self {
            JsonScalar::Text(s) => ScalarView::Text(s@),
            JsonScalar::Unsigned(n) => ScalarView::Unsigned(*n),
            JsonScalar::Truth(b) => ScalarView::Truth(*b),
        }
    }
}

/// One named field of an erased payload.
#[derive(Clone, Debug)]
pub struct JsonField {
    pub key: String,
    pub value: JsonScalar,
}

impl View for JsonField {
    type V = FieldView;

    open spec fn view(&self) -> FieldView {
        FieldView { key: self.key@, value: self.value@ }
    }
}

/// The uniform serializable handle: the erased payload, owned exclusively,
/// readable only as the sequence of named fields it serializes to.
#[derive(Clone, Debug)]
pub struct ErasedData {
    pub fields: Vec<JsonField>,
}

impl View for ErasedData {
    type V = Seq<FieldView>;

    open spec fn view(&self) -> Seq<FieldView> {
        self.fields@.map_values(|f: JsonField| f@)
    }
}

impl ErasedData {
    /// Number of fields the erased payload serializes to.
    pub fn field_count(&self) -> (n: usize)
        ensures
            n == self@.len(),
    {
        self.fields.len()
    }
}

/// A payload type that can pass the erasure boundary: it knows the exact
/// serialized structure it stands for, and erasing it preserves that
/// structure field for field.
pub trait Erasable: Sized {
    /// The serialized structure of this payload: its fields, in declaration
    /// order, with their names and values.
    spec fn erased_view(&self) -> Seq<FieldView>;

    /// Move the payload behind the uniform handle. Erasure never fails and
    /// is serialization-transparent: the handle serializes to exactly the
    /// structure the original value serializes to.
    fn erase(self) -> (r: ErasedData)
        ensures
            r@ == self.erased_view(),
    ;
}

} // verus!
