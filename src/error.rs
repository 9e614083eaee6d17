//! The errors of the connection and of the credential dispenser.
use vstd::prelude::*;

verus! {

#[derive(Debug, Clone, PartialEq, Eq)]
pub enum ConnectorError {
    /// Reading from the transport or from the callback listener failed.
    MessageReceiveFailed(String),
    /// An HTTP request could not be made or its answer not read.
    RequestFailed(String),
    /// The server answered with a status that the exchange does not expect.
    UnexpectedStatus(u16),
    /// Status 400; the server's message, or empty.
    HTTP400(String),
    /// Status 403; the server's message, or empty.
    HTTP403(String),
    HTTP404,
    /// The body of a successful answer is not JSON; the body.
    MalformedJson(String),
    /// A field that the answer must carry is missing: its name and the body.
    MissingResponseJSONField(String, String),
    /// The redirect carried no `code` parameter; the redirect's URL.
    MissingCode(String),
    /// The dispenser received a result for an operation that it had not asked for.
    UnexpectedEvent,
}

pub enum ErrorModel {
    MessageReceiveFailed(Seq<char>),
    RequestFailed(Seq<char>),
    UnexpectedStatus(u16),
    HTTP400(Seq<char>),
    HTTP403(Seq<char>),
    HTTP404,
    MalformedJson(Seq<char>),
    MissingResponseJSONField(Seq<char>, Seq<char>),
    MissingCode(Seq<char>),
    UnexpectedEvent,
}

impl View for ConnectorError {
    type V = ErrorModel;

    open spec fn view(&self) -> ErrorModel {
        match self {
            ConnectorError::MessageReceiveFailed(s) => ErrorModel::MessageReceiveFailed(s@),
            ConnectorError::RequestFailed(s) => ErrorModel::RequestFailed(s@),
            ConnectorError::UnexpectedStatus(c) => ErrorModel::UnexpectedStatus(*c),
            ConnectorError::HTTP400(s) => ErrorModel::HTTP400(s@),
            ConnectorError::HTTP403(s) => ErrorModel::HTTP403(s@),
            ConnectorError::HTTP404 => ErrorModel::HTTP404,
            ConnectorError::MalformedJson(s) => ErrorModel::MalformedJson(s@),
            ConnectorError::MissingResponseJSONField(f, b) => ErrorModel::MissingResponseJSONField(
                f@,
                b@,
            ),
            ConnectorError::MissingCode(u) => ErrorModel::MissingCode(u@),
            ConnectorError::UnexpectedEvent => ErrorModel::UnexpectedEvent,
        }
    }
}

} // verus!
