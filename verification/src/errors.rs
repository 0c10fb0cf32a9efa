//! The error kinds that building a request or reading a response can end in.

use vstd::prelude::*;

verus! {

/// Why a request could not be built or a response could not be read.
#[derive(Debug, Clone, PartialEq, Eq)]
pub enum ConnectorError {
    /// Data needed to build the request is missing or malformed.
    RequestEncodingFailed,
    /// The payment instrument is one that the gateway integration does not handle.
    NotImplemented(String),
    /// The operation is well formed but the gateway integration does not allow it.
    NotSupported { message: String, connector: &'static str },
    /// The configured credentials do not have the shape the gateway needs.
    FailedToObtainAuthType,
    /// The gateway answered with a value outside the accepted vocabulary.
    ResponseDeserializationFailed,
}

/// The mathematical content of a [`ConnectorError`].
pub enum ConnectorErrorView {
    RequestEncodingFailed,
    NotImplemented(Seq<char>),
    NotSupported { message: Seq<char>, connector: Seq<char> },
    FailedToObtainAuthType,
    ResponseDeserializationFailed,
}

impl View for ConnectorError {
    type V = ConnectorErrorView;

    open spec fn view(&self) -> ConnectorErrorView {
        match *self {
            ConnectorError::RequestEncodingFailed => ConnectorErrorView::RequestEncodingFailed,
            ConnectorError::NotImplemented(message) => ConnectorErrorView::NotImplemented(message@),
            ConnectorError::NotSupported { message, connector } => {
                ConnectorErrorView::NotSupported { message: message@, connector: connector@ }
            },
            ConnectorError::FailedToObtainAuthType => ConnectorErrorView::FailedToObtainAuthType,
            ConnectorError::ResponseDeserializationFailed =>
                ConnectorErrorView::ResponseDeserializationFailed,
        }
    }
}

/// The view of a fallible value: the value's view on success, the error's view on
/// failure.
pub open spec fn outcome_view<T: View>(r: Result<T, ConnectorError>) -> Result<
    T::V,
    ConnectorErrorView,
> {
    match r {
        Ok(value) => Ok(value@),
        Err(e) => Err(e@),
    }
}

/// Whether an outcome is the failure `e`.
pub open spec fn fails_with<T>(outcome: Result<T, ConnectorErrorView>, e: ConnectorErrorView)
    -> bool {
    outcome matches Err(actual) && actual == e
}

/// What an optional value turns into when its absence is a request-encoding error.
pub open spec fn or_encoding_failure<T>(value: Option<T>) -> Result<T, ConnectorErrorView> {
    match value {
        Some(v) => Ok(v),
        None => Err(ConnectorErrorView::RequestEncodingFailed),
    }
}

} // verus!
