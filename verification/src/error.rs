//! What a run can fail with.
use vstd::prelude::*;

verus! {

/// An error of the library. Each variant carries its message.
#[derive(Debug, PartialEq, Eq)]
pub enum IaGetError {
    /// A request that was refused, or credentials, tokens or files that are missing.
    Network(String),
    /// A URL that does not parse.
    UrlParse(String),
}

/// An [`IaGetError`] as plain text.
pub enum ErrorView {
    Network(Seq<char>),
    UrlParse(Seq<char>),
}

impl DeepView for IaGetError {
    type V = ErrorView;

    open spec fn deep_view(&self) -> ErrorView {
        match self {
            IaGetError::Network(text) => ErrorView::Network(text@),
            IaGetError::UrlParse(text) => ErrorView::UrlParse(text@),
        }
    }
}

impl ErrorView {
    /// The text of the error, whatever its kind.
    pub open spec fn message(self) -> Seq<char> {
        match self {
            ErrorView::Network(text) => text,
            ErrorView::UrlParse(text) => text,
        }
    }
}

impl IaGetError {
    /// The text of the error.
    pub fn message(&self) -> (r: String)
        ensures
            r@ == self.deep_view().message(),
    {
        match self {
            IaGetError::Network(text) => text.clone(),
            IaGetError::UrlParse(text) => text.clone(),
        }
    }

    /// A network error with the given text.
    pub(crate) fn network(text: &str) -> (r: IaGetError)
        ensures
            r.deep_view() == ErrorView::Network(text@),
    {
        IaGetError::Network(text.to_owned())
    }
}

/// The view of an error holds its kind and its whole text, and the message is that text.
pub proof fn errors_show_their_text(text: String)
    ensures
        IaGetError::Network(text).deep_view() == ErrorView::Network(text@),
        IaGetError::UrlParse(text).deep_view() == ErrorView::UrlParse(text@),
        ErrorView::Network(text@).message() == text@,
        ErrorView::UrlParse(text@).message() == text@,
{
}

/// A result with its value and its error taken by their views.
pub open spec fn outcome<T: DeepView, E: DeepView>(r: Result<T, E>) -> Result<T::V, E::V> {
    match r {
        Ok(value) => Ok(value.deep_view()),
        Err(error) => Err(error.deep_view()),
    }
}

/// The outcome of a result succeeds with the view of its value, or fails with that of its error.
pub proof fn outcomes_show_value_and_error<T: DeepView, E: DeepView>(value: T, error: E)
    ensures
        outcome(Ok::<T, E>(value)) == Ok::<T::V, E::V>(value.deep_view()),
        outcome(Err::<T, E>(error)) == Err::<T::V, E::V>(error.deep_view()),
{
}

} // verus!
