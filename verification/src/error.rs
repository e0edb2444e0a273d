//! The error that every fallible operation of the crate reports.

use vstd::prelude::*;

verus! {

/// Why an operation could not be carried out.
#[derive(Debug)]
pub enum LLMError {
    /// The request cannot be sent as it stands.
    InvalidRequest(String),
    /// The provider refused, failed, or answered with nothing usable.
    ProviderError(String),
    /// A response was not the JSON it should have been.
    JsonError(String),
    /// The HTTP exchange failed.
    HttpError(String),
}

/// An [`LLMError`] with its message as a sequence of characters.
pub ghost enum LLMErrorView {
    InvalidRequest(Seq<char>),
    ProviderError(Seq<char>),
    JsonError(Seq<char>),
    HttpError(Seq<char>),
}

impl View for LLMError {
    type V = LLMErrorView;

    open spec fn view(&self) -> LLMErrorView {
        match self {
            LLMError::InvalidRequest(message) => LLMErrorView::InvalidRequest(message@),
            LLMError::ProviderError(message) => LLMErrorView::ProviderError(message@),
            LLMError::JsonError(message) => LLMErrorView::JsonError(message@),
            LLMError::HttpError(message) => LLMErrorView::HttpError(message@),
        }
    }
}

} // verus!
