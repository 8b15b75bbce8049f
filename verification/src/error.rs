//! The failures that the library reports.

use vstd::prelude::*;

verus! {

/// Why an operation of the library failed.
#[derive(Debug, PartialEq, Eq)]
pub enum Error {
    /// No credential source could be set up. Holds the failure of each
    /// strategy, in the order in which the strategies were tried.
    NoAuthMethod(Box<Error>, Box<Error>, Box<Error>, Box<Error>),
    /// The transport failed before a response was complete; holds the
    /// transport's message.
    ConnectionError(String),
    /// The server answered with a status outside the success range; the
    /// message carries the status.
    ServerUnavailable(String),
    /// A response body did not decode. Carries no detail, so that nothing of
    /// the body can leak.
    ParsingError,
    /// The signing key could not be read.
    SignerInit,
    /// Signing failed.
    SignerFailed,
    /// A failure of one credential source, handed on as it came.
    Strategy(String),
}

/// The mathematical value of an [`Error`]: texts are sequences of characters.
pub enum ErrorView {
    NoAuthMethod(Seq<ErrorView>),
    ConnectionError(Seq<char>),
    ServerUnavailable(Seq<char>),
    ParsingError,
    SignerInit,
    SignerFailed,
    Strategy(Seq<char>),
}

impl Error {
    /// The value of the error, with the failures it holds taken by their own
    /// values.
    pub open spec fn model(self) -> ErrorView
        decreases self,
    {
        match self {
            Error::NoAuthMethod(first, second, third, fourth) => ErrorView::NoAuthMethod(
                seq![(*first).model(), (*second).model(), (*third).model(), (*fourth).model()],
            ),
            Error::ConnectionError(message) => ErrorView::ConnectionError(message@),
            Error::ServerUnavailable(message) => ErrorView::ServerUnavailable(message@),
            Error::ParsingError => ErrorView::ParsingError,
            Error::SignerInit => ErrorView::SignerInit,
            Error::SignerFailed => ErrorView::SignerFailed,
            Error::Strategy(message) => ErrorView::Strategy(message@),
        }
    }
}

impl View for Error {
    type V = ErrorView;

    open spec fn view(&self) -> ErrorView {
        self.model()
    }
}

} // verus!
