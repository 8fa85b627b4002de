//! Error values shared by the whole library.
use vstd::prelude::*;

verus! {

/// Diagnostic record carried by every library error.
#[derive(Debug)]
pub struct ReError {
    pub message: String,
}

impl ReError {
    /// Wraps a diagnostic text.
    pub fn new(message: String) -> (r: ReError)
        ensures
            r.message@ == message@,
    {
        ReError { message }
    }

    /// The diagnostic text, for hosts that render errors.
    pub fn message_str(&self) -> (r: &str)
        ensures
            r@ == self.message@,
    {
        self.message.as_str()
    }
}

/// The library's error taxonomy: compile failures, pattern rejections, and
/// group lookups that fall outside the captured spans.
#[derive(Debug)]
pub enum AppError {
    RegexError(ReError),
    InvalidPattern(ReError),
    IndexOutOfBounds(ReError),
}

impl AppError {
    /// Renders the error for users: the diagnostic text it carries, whatever
    /// the variant — for a compile failure that is the backend's native text.
    pub fn message(&self) -> (r: String)
        ensures
            r@ == self.spec_source_message(),
    {
        match self {
            AppError::RegexError(e) => e.message.clone(),
            AppError::InvalidPattern(e) => e.message.clone(),
            AppError::IndexOutOfBounds(e) => e.message.clone(),
        }
    }

    /// The underlying diagnostic record, whatever the variant.
    pub fn source(&self) -> (r: &ReError)
        ensures
            r.message@ == self.spec_source_message(),
    {
        match self {
            AppError::RegexError(e) => e,
            AppError::InvalidPattern(e) => e,
            AppError::IndexOutOfBounds(e) => e,
        }
    }

    /// The diagnostic text held inside, whatever the variant.
    pub open spec fn spec_source_message(&self) -> Seq<char> {
        match self {
            AppError::RegexError(e) => e.message@,
            AppError::InvalidPattern(e) => e.message@,
            AppError::IndexOutOfBounds(e) => e.message@,
        }
    }
}

impl From<ReError> for AppError {
    /// A bare diagnostic becomes a backend compile failure.
    fn from(error: ReError) -> (r: AppError) {
        AppError::RegexError(error)
    }
}

impl vstd::std_specs::convert::FromSpecImpl<ReError> for AppError {
    open spec fn obeys_from_spec() -> bool {
        true
    }

    open spec fn from_spec(t: ReError) -> AppError {
        AppError::RegexError(t)
    }
}

} // verus!
