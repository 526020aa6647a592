//! Why handling a certificate or a query stops.
use vstd::prelude::*;

verus! {

/// An error that ends the handling of a certificate or of a query.
pub enum EngineError {
    /// Opening or reading a worker's store failed; the store's message.
    Store(String),
    /// The worker's store holds no batch under this digest.
    DigestNotFound(Vec<u8>),
    /// A stored batch is not a worker's batch message.
    UnrecognizedMessageFormat,
    /// A transaction is not a JSON transaction request; the decoder's message.
    TransactionDecode(String),
    /// The application refused a transaction or a request; its message.
    Application(String),
    /// The query names a method that is not forwarded to the application.
    NotImplemented,
    /// The parameters of a query are not JSON; the parser's message.
    InvalidParams(String),
}

/// `EngineError` with its texts and bytes taken by their views.
pub enum EngineErrorView {
    Store(Seq<char>),
    DigestNotFound(Seq<u8>),
    UnrecognizedMessageFormat,
    TransactionDecode(Seq<char>),
    Application(Seq<char>),
    NotImplemented,
    InvalidParams(Seq<char>),
}

impl View for EngineError {
    type V = EngineErrorView;

    open spec fn view(&self) -> EngineErrorView {
        match self {
            EngineError::Store(m) => EngineErrorView::Store(m@),
            EngineError::DigestNotFound(d) => EngineErrorView::DigestNotFound(d@),
            EngineError::UnrecognizedMessageFormat => EngineErrorView::UnrecognizedMessageFormat,
            EngineError::TransactionDecode(m) => EngineErrorView::TransactionDecode(m@),
            EngineError::Application(m) => EngineErrorView::Application(m@),
            EngineError::NotImplemented => EngineErrorView::NotImplemented,
            EngineError::InvalidParams(m) => EngineErrorView::InvalidParams(m@),
        }
    }
}

/// A copy of a vector of bytes.
pub fn copy_bytes(v: &Vec<u8>) -> (r: Vec<u8>)
    ensures
        r@ == v@,
{
    vstd::slice::slice_to_vec(v.as_slice())
}

impl EngineError {
    /// A copy of this error.
    pub fn duplicate(&self) -> (r: EngineError)
        ensures
            r@ == self@,
    {
        match self {
            EngineError::Store(m) => EngineError::Store(m.clone()),
            EngineError::DigestNotFound(d) => EngineError::DigestNotFound(copy_bytes(d)),
            EngineError::UnrecognizedMessageFormat => EngineError::UnrecognizedMessageFormat,
            EngineError::TransactionDecode(m) => EngineError::TransactionDecode(m.clone()),
            EngineError::Application(m) => EngineError::Application(m.clone()),
            EngineError::NotImplemented => EngineError::NotImplemented,
            EngineError::InvalidParams(m) => EngineError::InvalidParams(m.clone()),
        }
    }
}

} // verus!
