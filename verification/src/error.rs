//! What can go wrong: a console line that is no number, and a request that
//! the remote side did not answer as expected.

use vstd::prelude::*;

verus! {

/// A console line that had to be a number and is none. The session does not
/// recover from it.
#[derive(Clone, Copy, Debug, PartialEq, Eq, Structural)]
pub enum InputParseError {
    /// The line read at the menu is no integer.
    Selector,
    /// The line read as the target of an operation is no integer that fits
    /// a product's identifier.
    ProductId,
}

impl InputParseError {
    /// The text that describes the failure.
    pub open spec fn message_text(self) -> Seq<char> {
        match self {
            InputParseError::Selector => "Please enter a number"@,
            InputParseError::ProductId => "Please enter a valid ID"@,
        }
    }

    /// The text that describes the failure.
    pub fn message(&self) -> (r: &'static str)
        ensures
            r@ == self.message_text(),
    {
        match self {
            InputParseError::Selector => "Please enter a number",
            InputParseError::ProductId => "Please enter a valid ID",
        }
    }
}

/// The two ways in which a request fails.
#[derive(Clone, Copy, Debug, PartialEq, Eq, Structural)]
pub enum ApiErrorKind {
    /// The request did not get through, or no answer came back.
    Network,
    /// An answer came back whose body is not of the expected shape.
    Decode,
}

/// A failed request, with the text that describes the failure.
#[derive(Clone, Debug, PartialEq, Eq)]
pub struct ApiError {
    pub kind: ApiErrorKind,
    pub message: String,
}

/// An [`ApiError`] as the contracts see it.
pub struct ApiErrorView {
    pub kind: ApiErrorKind,
    pub message: Seq<char>,
}

impl View for ApiError {
    type V = ApiErrorView;

    open spec fn view(&self) -> ApiErrorView {
        ApiErrorView { kind: self.kind, message: self.message@ }
    }
}

impl ApiError {
    /// The failure of a request that `message` describes. It is a failure to
    /// decode where a body came back and was not of the expected shape, and
    /// a failure of the network in every other case.
    pub fn of(body_undecodable: bool, message: String) -> (r: ApiError)
        ensures
            r@ == (ApiErrorView {
                kind: if body_undecodable {
                    ApiErrorKind::Decode
                } else {
                    ApiErrorKind::Network
                },
                message: message@,
            }),
    {
        let kind = if body_undecodable {
            ApiErrorKind::Decode
        } else {
            ApiErrorKind::Network
        };
        ApiError { kind, message }
    }
}

} // verus!
