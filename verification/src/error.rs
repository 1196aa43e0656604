//! The errors shared by the domain boundaries: providers, publishers and
//! the media model.
use vstd::prelude::*;
use vstd::string::*;

verus! {

/// Errors shared by Sonata's domain boundaries.
#[derive(Debug, Clone, PartialEq, Eq)]
#[non_exhaustive]
pub enum Error {
    /// A provider could not produce its next event.
    Provider(String),
    /// A publisher could not apply a media event.
    Publisher(String),
    /// A domain model received invalid media metadata.
    InvalidMediaData(String),
    /// An implementation does not support the requested operation.
    Unsupported(String),
}

/// What an [`Error`] says: its variant and its message.
pub enum ErrorView {
    Provider(Seq<char>),
    Publisher(Seq<char>),
    InvalidMediaData(Seq<char>),
    Unsupported(Seq<char>),
}

impl View for Error {
    type V = ErrorView;

    open spec fn view(&self) -> ErrorView {
        match self {
            Error::Provider(m) => ErrorView::Provider(m@),
            Error::Publisher(m) => ErrorView::Publisher(m@),
            Error::InvalidMediaData(m) => ErrorView::InvalidMediaData(m@),
            Error::Unsupported(m) => ErrorView::Unsupported(m@),
        }
    }
}

/// The view of a result whose error is an [`Error`], with the success value
/// viewed by `f`.
pub open spec fn result_view<T, V>(r: Result<T, Error>, f: spec_fn(T) -> V) -> Result<V, ErrorView> {
    match r {
        Ok(v) => Ok(f(v)),
        Err(e) => Err(e@),
    }
}

/// The text that describes an error, variant first.
pub open spec fn error_text(e: ErrorView) -> Seq<char> {
    match e {
        ErrorView::Provider(m) => "media provider error: "@ + m,
        ErrorView::Publisher(m) => "presence publisher error: "@ + m,
        ErrorView::InvalidMediaData(m) => "invalid media data: "@ + m,
        ErrorView::Unsupported(m) => "unsupported operation: "@ + m,
    }
}

impl Error {
    /// The text that describes this error, as its `Display` would.
    pub fn message(&self) -> (s: String)
        ensures
            s@ == error_text(self@),
    {
        match self {
            Error::Provider(m) => String::from_str("media provider error: ").concat(m.as_str()),
            Error::Publisher(m) => String::from_str("presence publisher error: ").concat(
                m.as_str(),
            ),
            Error::InvalidMediaData(m) => String::from_str("invalid media data: ").concat(
                m.as_str(),
            ),
            Error::Unsupported(m) => String::from_str("unsupported operation: ").concat(m.as_str()),
        }
    }
}

} // verus!
