//! The five operations and the request that each of them makes.

use crate::number::{push_signed_decimal, signed_decimal};
use crate::product::{Fields, FieldsView, Product, ProductView};
use vstd::prelude::*;
use vstd::string::StringExecFns;

verus! {

/// The operations that the menu offers.
#[derive(Clone, Copy, Debug, PartialEq, Eq, Structural)]
pub enum Operation {
    List,
    Fetch,
    Create,
    Delete,
    Edit,
}

impl Operation {
    /// The operation that the selector `n` stands for: one to five stand for
    /// the five operations, and every other integer stands for none.
    pub open spec fn of_selector_spec(n: int) -> Option<Operation> {
        if n == 1 {
            Some(Operation::List)
        } else if n == 2 {
            Some(Operation::Fetch)
        } else if n == 3 {
            Some(Operation::Create)
        } else if n == 4 {
            Some(Operation::Delete)
        } else if n == 5 {
            Some(Operation::Edit)
        } else {
            None
        }
    }

    /// The operation that the selector `n` stands for.
    pub fn of_selector(n: i64) -> (r: Option<Operation>)
        ensures
            r == Operation::of_selector_spec(n as int),
    {
        match n {
            1 => Some(Operation::List),
            2 => Some(Operation::Fetch),
            3 => Some(Operation::Create),
            4 => Some(Operation::Delete),
            5 => Some(Operation::Edit),
            _ => None,
        }
    }
}

/// What the body of an answer is expected to hold.
#[derive(Clone, Copy, Debug, PartialEq, Eq, Structural)]
pub enum Shape {
    /// A list of products.
    Products,
    /// One product.
    Product,
    /// Nothing that is looked at: the body is dropped unread.
    Nothing,
}

/// The method of a request.
#[derive(Clone, Copy, Debug, PartialEq, Eq, Structural)]
pub enum Method {
    Get,
    Post,
    Put,
    Delete,
}

/// The address of the collection, which all requests go to or below.
pub open spec fn base_url() -> Seq<char> {
    "https://fakestoreapi.com/products"@
}

/// The address of the product `id`: that of the collection, a slash and the
/// decimal numeral of `id`.
pub open spec fn product_url_spec(id: i32) -> Seq<char> {
    base_url() + "/"@ + signed_decimal(id as int)
}

/// The address of the collection.
pub fn collection_url() -> (r: String)
    ensures
        r@ == base_url(),
{
    String::from_str("https://fakestoreapi.com/products")
}

/// The address of the product `id`.
pub fn product_url(id: i32) -> (r: String)
    ensures
        r@ == product_url_spec(id),
{
    let mut url = String::from_str("https://fakestoreapi.com/products");
    url.append("/");
    push_signed_decimal(&mut url, id);
    url
}

/// A request: what is sent, and where.
#[derive(Clone, Debug, PartialEq, Eq)]
pub struct ApiRequest {
    pub method: Method,
    pub url: String,
    /// The product that the request carries as its body, if it has a body.
    pub body: Option<Product>,
}

/// An [`ApiRequest`] as the contracts see it.
pub struct ApiRequestView {
    pub method: Method,
    pub url: Seq<char>,
    pub body: Option<ProductView>,
}

impl View for ApiRequest {
    type V = ApiRequestView;

    open spec fn view(&self) -> ApiRequestView {
        ApiRequestView {
            method: self.method,
            url: self.url@,
            body: match self.body {
                Some(product) => Some(product@),
                None => None,
            },
        }
    }
}

impl ApiRequestView {
    /// A product that is sent to be created carries no identifier, one that
    /// is sent to replace another carries an identifier, and reading and
    /// deleting send no product.
    pub open spec fn well_formed(self) -> bool {
        match self.method {
            Method::Get | Method::Delete => self.body is None,
            Method::Post => self.body is Some && self.body->0.id is None,
            Method::Put => self.body is Some && self.body->0.id is Some,
        }
    }
}

/// An operation together with what it works on.
#[derive(Clone, Debug, PartialEq, Eq)]
pub enum Call {
    /// Read the whole collection.
    List,
    /// Read the product with this identifier.
    Fetch(i32),
    /// Create a product from these fields.
    Create(Fields),
    /// Delete the product with this identifier.
    Delete(i32),
    /// Replace the product with this identifier by one made of these fields.
    Edit(i32, Fields),
}

/// A [`Call`] as the contracts see it.
pub enum CallView {
    List,
    Fetch(i32),
    Create(FieldsView),
    Delete(i32),
    Edit(i32, FieldsView),
}

impl View for Call {
    type V = CallView;

    open spec fn view(&self) -> CallView {
        match self {
            Call::List => CallView::List,
            Call::Fetch(id) => CallView::Fetch(*id),
            Call::Create(fields) => CallView::Create(fields@),
            Call::Delete(id) => CallView::Delete(*id),
            Call::Edit(id, fields) => CallView::Edit(*id, fields@),
        }
    }
}

impl CallView {
    /// The operation that this is a call of.
    pub open spec fn operation(self) -> Operation {
        match self {
            CallView::List => Operation::List,
            CallView::Fetch(_) => Operation::Fetch,
            CallView::Create(_) => Operation::Create,
            CallView::Delete(_) => Operation::Delete,
            CallView::Edit(_, _) => Operation::Edit,
        }
    }

    /// What the answer to this call is expected to hold: the products for
    /// the collection, nothing for a deletion, and one product for the rest.
    pub open spec fn expects(self) -> Shape {
        match self {
            CallView::List => Shape::Products,
            CallView::Delete(_) => Shape::Nothing,
            _ => Shape::Product,
        }
    }

    /// The one request that this call makes.
    pub open spec fn request(self) -> ApiRequestView {
        match self {
            CallView::List => ApiRequestView { method: Method::Get, url: base_url(), body: None },
            CallView::Fetch(id) => ApiRequestView {
                method: Method::Get,
                url: product_url_spec(id),
                body: None,
            },
            CallView::Create(fields) => ApiRequestView {
                method: Method::Post,
                url: base_url(),
                body: Some(fields.product(None)),
            },
            CallView::Delete(id) => ApiRequestView {
                method: Method::Delete,
                url: product_url_spec(id),
                body: None,
            },
            CallView::Edit(id, fields) => ApiRequestView {
                method: Method::Put,
                url: product_url_spec(id),
                body: Some(fields.product(Some(id))),
            },
        }
    }
}

impl Call {
    /// The operation that this is a call of.
    pub fn operation(&self) -> (r: Operation)
        ensures
            r == self@.operation(),
    {
        match self {
            Call::List => Operation::List,
            Call::Fetch(_) => Operation::Fetch,
            Call::Create(_) => Operation::Create,
            Call::Delete(_) => Operation::Delete,
            Call::Edit(_, _) => Operation::Edit,
        }
    }

    /// What the answer to this call is expected to hold.
    pub fn expects(&self) -> (r: Shape)
        ensures
            r == self@.expects(),
    {
        match self {
            Call::List => Shape::Products,
            Call::Delete(_) => Shape::Nothing,
            _ => Shape::Product,
        }
    }

    /// The one request that this call makes.
    pub fn request(&self) -> (r: ApiRequest)
        ensures
            r@ == self@.request(),
            r@.well_formed(),
    {
        match self {
            Call::List => ApiRequest { method: Method::Get, url: collection_url(), body: None },
            Call::Fetch(id) => ApiRequest { method: Method::Get, url: product_url(*id), body: None },
            Call::Create(fields) => ApiRequest {
                method: Method::Post,
                url: collection_url(),
                body: Some(copy_fields(fields).into_product(None)),
            },
            Call::Delete(id) => ApiRequest {
                method: Method::Delete,
                url: product_url(*id),
                body: None,
            },
            Call::Edit(id, fields) => ApiRequest {
                method: Method::Put,
                url: product_url(*id),
                body: Some(copy_fields(fields).into_product(Some(*id))),
            },
        }
    }
}

/// A copy of `fields`.
fn copy_fields(fields: &Fields) -> (r: Fields)
    ensures
        r@ == fields@,
{
    Fields {
        title: fields.title.clone(),
        price: fields.price,
        description: fields.description.clone(),
        category: fields.category.clone(),
    }
}

} // verus!
