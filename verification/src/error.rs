//! The failures that the venue's interfaces report, as the agent records
//! them.

use vstd::prelude::*;
use vstd::string::StringExecFns;

verus! {

/// The status with which the venue declines a call or fails to deliver one
/// message of a stream.
#[derive(Debug, PartialEq, Eq)]
pub struct Status {
    /// The whole status as it prints.
    pub text: String,
    /// The message of the status alone.
    pub message: String,
}

/// The mathematical value of a [`Status`].
pub struct StatusView {
    pub text: Seq<char>,
    pub message: Seq<char>,
}

impl View for Status {
    type V = StatusView;

    open spec fn view(&self) -> StatusView {
        StatusView { text: self.text@, message: self.message@ }
    }
}

impl Clone for Status {
    fn clone(&self) -> (r: Self)
        ensures
            r@ == self@,
    {
        Status { text: self.text.clone(), message: self.message.clone() }
    }
}

/// Why a query of the venue failed: the connection did, or the venue
/// answered with a status.
#[derive(Debug, PartialEq, Eq)]
pub enum Error {
    /// The transport failed; the field is the failure as it prints.
    GrpcTransportError(String),
    /// The venue answered with a status.
    GrpcError(Status),
}

/// The mathematical value of an [`Error`].
pub enum ErrorView {
    GrpcTransportError(Seq<char>),
    GrpcError(StatusView),
}

impl View for Error {
    type V = ErrorView;

    open spec fn view(&self) -> ErrorView {
        match *self {
            Error::GrpcTransportError(text) => ErrorView::GrpcTransportError(text@),
            Error::GrpcError(status) => ErrorView::GrpcError(status@),
        }
    }
}

impl Clone for Error {
    fn clone(&self) -> (r: Self)
        ensures
            r@ == self@,
    {
        match self {
            Error::GrpcTransportError(text) => Error::GrpcTransportError(text.clone()),
            Error::GrpcError(status) => Error::GrpcError(status.clone()),
        }
    }
}

impl ErrorView {
    /// The description of the error: what failed, then the failure as it
    /// prints.
    pub open spec fn desc(self) -> Seq<char> {
        match self {
            ErrorView::GrpcTransportError(text) => "GRPC transport error: "@ + text,
            ErrorView::GrpcError(status) => "GRPC error: "@ + status.text,
        }
    }

    /// The error as it prints.
    pub open spec fn rendered(self) -> Seq<char> {
        "wallet client error: "@ + self.desc()
    }
}

impl Error {
    /// Describes the error.
    pub fn desc(&self) -> (text: String)
        ensures
            text@ == self@.desc(),
    {
        match self {
            Error::GrpcTransportError(failure) => {
                let mut text = String::from_str("GRPC transport error: ");
                text.append(failure.as_str());
                text
            },
            Error::GrpcError(status) => {
                let mut text = String::from_str("GRPC error: ");
                text.append(status.text.as_str());
                text
            },
        }
    }

    /// Prints the error.
    pub fn to_string(&self) -> (text: String)
        ensures
            text@ == self@.rendered(),
    {
        let mut text = String::from_str("wallet client error: ");
        let desc = self.desc();
        text.append(desc.as_str());
        text
    }
}

} // verus!
