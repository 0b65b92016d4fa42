//! The fields that the user is asked for when a product is created or
//! edited.

use crate::product::{Fields, FieldsView, Price};
use crate::text::{trim, trimmed};
use vstd::prelude::*;
use vstd::string::StringExecFns;

verus! {

/// The fields that are asked for, in the order of asking.
#[derive(Clone, Copy, Debug, PartialEq, Eq, Structural)]
pub enum Field {
    Title,
    Price,
    Description,
    Category,
}

impl Field {
    /// The line that asks for this field.
    pub open spec fn prompt_text(self) -> Seq<char> {
        match self {
            Field::Title => "Name of the product:"@,
            Field::Price => "Price of the product:"@,
            Field::Description => "Description of the product:"@,
            Field::Category => "Category of the product:"@,
        }
    }

    /// The field that is asked for after this one, if any is.
    pub open spec fn next_spec(self) -> Option<Field> {
        match self {
            Field::Title => Some(Field::Price),
            Field::Price => Some(Field::Description),
            Field::Description => Some(Field::Category),
            Field::Category => None,
        }
    }

    /// The line that asks for this field.
    pub fn prompt(self) -> (r: &'static str)
        ensures
            r@ == self.prompt_text(),
    {
        match self {
            Field::Title => "Name of the product:",
            Field::Price => "Price of the product:",
            Field::Description => "Description of the product:",
            Field::Category => "Category of the product:",
        }
    }

    /// The field that is asked for after this one, if any is.
    #[verifier::when_used_as_spec(next_spec)]
    pub fn next(self) -> (r: Option<Field>)
        ensures
            r == self.next_spec(),
    {
        match self {
            Field::Title => Some(Field::Price),
            Field::Price => Some(Field::Description),
            Field::Description => Some(Field::Category),
            Field::Category => None,
        }
    }
}

/// The fields as entered so far, each without the whitespace around it. The
/// price is kept as text: reading it as a number is not done here.
#[derive(Clone, Debug, PartialEq, Eq)]
pub struct Draft {
    pub title: String,
    pub price_text: String,
    pub description: String,
    pub category: String,
}

/// A [`Draft`] as the contracts see it.
pub struct DraftView {
    pub title: Seq<char>,
    pub price_text: Seq<char>,
    pub description: Seq<char>,
    pub category: Seq<char>,
}

impl View for Draft {
    type V = DraftView;

    open spec fn view(&self) -> DraftView {
        DraftView {
            title: self.title@,
            price_text: self.price_text@,
            description: self.description@,
            category: self.category@,
        }
    }
}

impl DraftView {
    /// The draft in which nothing has been entered.
    pub open spec fn empty() -> DraftView {
        DraftView {
            title: Seq::empty(),
            price_text: Seq::empty(),
            description: Seq::empty(),
            category: Seq::empty(),
        }
    }

    /// This draft after `line` was entered for `field`: the field holds the
    /// line without the whitespace around it, the others are as before.
    pub open spec fn with(self, field: Field, line: Seq<char>) -> DraftView {
        match field {
            Field::Title => DraftView { title: trimmed(line), ..self },
            Field::Price => DraftView { price_text: trimmed(line), ..self },
            Field::Description => DraftView { description: trimmed(line), ..self },
            Field::Category => DraftView { category: trimmed(line), ..self },
        }
    }

    /// The fields that this draft stands for, given what reading its price
    /// text as a number gave. Where that gave nothing, the price is `0.0`.
    pub open spec fn fields(self, reading: Option<Price>) -> FieldsView {
        FieldsView {
            title: self.title,
            price: Price::or_zero_spec(reading),
            description: self.description,
            category: self.category,
        }
    }
}

impl Draft {
    /// The draft in which nothing has been entered.
    pub fn empty() -> (r: Draft)
        ensures
            r@ == DraftView::empty(),
    {
        Draft {
            title: String::new(),
            price_text: String::new(),
            description: String::new(),
            category: String::new(),
        }
    }

    /// Enters `line` for `field`.
    pub fn with(self, field: Field, line: &str) -> (r: Draft)
        ensures
            r@ == self@.with(field, line@),
    {
        let entered = String::from_str(trim(line));
        match field {
            Field::Title => Draft { title: entered, ..self },
            Field::Price => Draft { price_text: entered, ..self },
            Field::Description => Draft { description: entered, ..self },
            Field::Category => Draft { category: entered, ..self },
        }
    }

    /// The fields that this draft stands for, given what reading its price
    /// text as a number gave. Text that is no number is no error: the price
    /// is then `0.0`.
    pub fn into_fields(self, reading: Option<Price>) -> (r: Fields)
        ensures
            r@ == self@.fields(reading),
    {
        Fields {
            title: self.title,
            price: Price::or_zero(reading),
            description: self.description,
            category: self.category,
        }
    }
}

} // verus!
