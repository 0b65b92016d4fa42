//! The product record and the values that stand around it.

use vstd::prelude::*;
use vstd::string::StringExecFns;

verus! {

/// A price: a binary64 floating-point number, held by its bit pattern.
///
/// The crate never computes with prices. It stores them, hands them on and
/// knows the pattern of zero.
#[derive(Clone, Copy, Debug, PartialEq, Eq, Structural)]
pub struct Price {
    pub bits: u64,
}

impl Price {
    /// The price `0.0`.
    pub open spec fn zero_spec() -> Price {
        Price { bits: 0 }
    }

    /// The price `0.0`.
    #[verifier::when_used_as_spec(zero_spec)]
    pub fn zero() -> (r: Price)
        ensures
            r == Price::zero_spec(),
    {
        Price { bits: 0 }
    }

    /// `reading` where there is one, and `0.0` where there is none.
    pub open spec fn or_zero_spec(reading: Option<Price>) -> Price {
        match reading {
            Some(price) => price,
            None => Price::zero_spec(),
        }
    }

    /// The price that a field stands for, given what reading its text as a
    /// number gave: text that is no number counts as `0.0`.
    pub fn or_zero(reading: Option<Price>) -> (r: Price)
        ensures
            r == Price::or_zero_spec(reading),
    {
        match reading {
            Some(price) => price,
            None => Price::zero(),
        }
    }
}

/// The image address that every product made here carries.
pub open spec fn placeholder_image() -> Seq<char> {
    "https://example.com/image.jpg"@
}

/// A product of the catalogue.
///
/// `id` is given out by the remote side: a product that is yet to be created
/// has none.
#[derive(Clone, Debug, PartialEq, Eq)]
pub struct Product {
    pub id: Option<i32>,
    pub title: String,
    pub price: Price,
    pub description: String,
    pub category: String,
    pub image: String,
}

/// A [`Product`] as the contracts see it.
pub struct ProductView {
    pub id: Option<i32>,
    pub title: Seq<char>,
    pub price: Price,
    pub description: Seq<char>,
    pub category: Seq<char>,
    pub image: Seq<char>,
}

impl View for Product {
    type V = ProductView;

    open spec fn view(&self) -> ProductView {
        ProductView {
            id: self.id,
            title: self.title@,
            price: self.price,
            description: self.description@,
            category: self.category@,
            image: self.image@,
        }
    }
}

impl DeepView for Product {
    type V = ProductView;

    open spec fn deep_view(&self) -> ProductView {
        self@
    }
}

/// What the user enters of a product: everything but the identifier and the
/// image.
#[derive(Clone, Debug, PartialEq, Eq)]
pub struct Fields {
    pub title: String,
    pub price: Price,
    pub description: String,
    pub category: String,
}

/// [`Fields`] as the contracts see them.
pub struct FieldsView {
    pub title: Seq<char>,
    pub price: Price,
    pub description: Seq<char>,
    pub category: Seq<char>,
}

impl View for Fields {
    type V = FieldsView;

    open spec fn view(&self) -> FieldsView {
        FieldsView {
            title: self.title@,
            price: self.price,
            description: self.description@,
            category: self.category@,
        }
    }
}

impl FieldsView {
    /// The product that these fields describe, under the identifier `id`.
    pub open spec fn product(self, id: Option<i32>) -> ProductView {
        ProductView {
            id,
            title: self.title,
            price: self.price,
            description: self.description,
            category: self.category,
            image: placeholder_image(),
        }
    }
}

impl Fields {
    /// The product that these fields describe, under the identifier `id` and
    /// with the placeholder image.
    pub fn into_product(self, id: Option<i32>) -> (r: Product)
        ensures
            r@ == self@.product(id),
    {
        Product {
            id,
            title: self.title,
            price: self.price,
            description: self.description,
            category: self.category,
            image: String::from_str("https://example.com/image.jpg"),
        }
    }
}

/// A product as it came back from the remote side, together with its price
/// written out with two decimals.
#[derive(Clone, Debug, PartialEq, Eq)]
pub struct Received {
    pub product: Product,
    pub price_text: String,
}

/// A [`Received`] as the contracts see it.
pub struct ReceivedView {
    pub product: ProductView,
    pub price_text: Seq<char>,
}

impl View for Received {
    type V = ReceivedView;

    open spec fn view(&self) -> ReceivedView {
        ReceivedView { product: self.product@, price_text: self.price_text@ }
    }
}

impl DeepView for Received {
    type V = ReceivedView;

    open spec fn deep_view(&self) -> ReceivedView {
        self@
    }
}

} // verus!
