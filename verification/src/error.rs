//! Errors that a request is answered with.

use vstd::prelude::*;

verus! {

/// Why a request was not served.
#[derive(Debug, PartialEq)]
pub enum ApiError {
    /// The request asks for something that cannot be served.
    InvalidRequest { message: String, param: Option<String> },
    /// The request names a model that is not served.
    ModelNotFound { model: String },
    /// Generation failed.
    ServerError { message: String },
}

/// What a [`ApiError`] holds.
#[verifier::ext_equal]
pub enum ApiErrorView {
    InvalidRequest { message: Seq<char>, param: Option<Seq<char>> },
    ModelNotFound { model: Seq<char> },
    ServerError { message: Seq<char> },
}

impl DeepView for ApiError {
    type V = ApiErrorView;

    open spec fn deep_view(&self) -> ApiErrorView {
        match self {
            ApiError::InvalidRequest { message, param } => ApiErrorView::InvalidRequest {
                message: message@,
                param: param.deep_view(),
            },
            ApiError::ModelNotFound { model } => ApiErrorView::ModelNotFound {
                model: model@,
            },
            ApiError::ServerError { message } => ApiErrorView::ServerError {
                message: message@,
            },
        }
    }
}

} // verus!
