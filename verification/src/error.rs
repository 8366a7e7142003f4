use vstd::prelude::*;

verus! {

/// Errors that the providers report.
#[derive(Debug, PartialEq, Eq)]
pub enum SecretSpecError {
    /// A provider operation failed; the text explains why.
    ProviderOperationFailed(String),
    /// Starting an external command failed for a reason other than a missing program.
    Io(String),
    /// A provider URI could not be parsed as a URL; the URI is kept.
    InvalidUrl(String),
}

/// The mathematical value of a [`SecretSpecError`].
pub enum ErrorView {
    ProviderOperationFailed(Seq<char>),
    Io(Seq<char>),
    InvalidUrl(Seq<char>),
}

impl View for SecretSpecError {
    type V = ErrorView;

    open spec fn view(&self) -> ErrorView {
        match self {
            SecretSpecError::ProviderOperationFailed(m) => ErrorView::ProviderOperationFailed(m@),
            SecretSpecError::Io(m) => ErrorView::Io(m@),
            SecretSpecError::InvalidUrl(m) => ErrorView::InvalidUrl(m@),
        }
    }
}

/// The value of a fallible text result.
pub open spec fn text_result_view(r: Result<String, SecretSpecError>) -> Result<Seq<char>, ErrorView> {
    match r {
        Ok(s) => Ok(s@),
        Err(e) => Err(e@),
    }
}

} // verus!
