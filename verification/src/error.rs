//! The failures that an operation can report.

use vstd::prelude::*;
use vstd::string::StringExecFns;
use crate::ipv4::{ipv4_text, Ipv4Address};
use crate::ipv6::{ipv6_text, Ipv6Address};

verus! {

/// Why an operation failed.
#[derive(Clone, Debug, PartialEq, Eq)]
pub enum Error {
    /// The key file could not be read.
    Io { message: String },
    /// The request did not reach the provider, or no reply came back.
    Request { message: String },
    /// The key file is not the JSON that is expected of it.
    Json { message: String },
    /// The provider refused the request, for the reason it gives.
    Api { message: String },
    /// The reply to a listing is JSON, but not the envelope or the payload
    /// that is expected.
    MalformedApi { response: String },
    /// The reply is not JSON, or it is the reply to a ping, a create or an
    /// edit and not of the shape that is expected; `error` says what is
    /// wrong with it.
    MalformedApiSerde { error: String, response: String },
    /// An IPv4 address came back where an IPv6 address was asked for.
    UnexpectedIpv4(Ipv4Address),
    /// An IPv6 address came back where an IPv4 address was asked for.
    UnexpectedIpv6(Ipv6Address),
}

/// The mathematical value of an [`Error`].
pub enum ErrorView {
    Io { message: Seq<char> },
    Request { message: Seq<char> },
    Json { message: Seq<char> },
    Api { message: Seq<char> },
    MalformedApi { response: Seq<char> },
    MalformedApiSerde { error: Seq<char>, response: Seq<char> },
    UnexpectedIpv4(Ipv4Address),
    UnexpectedIpv6(Ipv6Address),
}

impl View for Error {
    type V = ErrorView;

    open spec fn view(&self) -> ErrorView {
        match self {
            Error::Io { message } => ErrorView::Io { message: message@ },
            Error::Request { message } => ErrorView::Request { message: message@ },
            Error::Json { message } => ErrorView::Json { message: message@ },
            Error::Api { message } => ErrorView::Api { message: message@ },
            Error::MalformedApi { response } => ErrorView::MalformedApi { response: response@ },
            Error::MalformedApiSerde { error, response } => ErrorView::MalformedApiSerde {
                error: error@,
                response: response@,
            },
            Error::UnexpectedIpv4(address) => ErrorView::UnexpectedIpv4(*address),
            Error::UnexpectedIpv6(address) => ErrorView::UnexpectedIpv6(*address),
        }
    }
}

impl ErrorView {
    /// Whether the failure is a reply that does not have the expected
    /// shape.
    pub open spec fn is_malformed(self) -> bool {
        self is MalformedApi || self is MalformedApiSerde
    }

    /// The line that reports the failure.
    pub open spec fn text(self) -> Seq<char> {
        match self {
            ErrorView::Io { message } => message,
            ErrorView::Request { message } => message,
            ErrorView::Json { message } => message,
            ErrorView::Api { message } => "porkbun API returned an error: \""@ + message + "\""@,
            ErrorView::MalformedApi { response } =>
                "porkbun API returned an unrecognized response ("@ + response + ")"@,
            ErrorView::MalformedApiSerde { error, response } =>
                "porkbun API returned an unrecognized response ("@ + response + "): "@ + error,
            ErrorView::UnexpectedIpv4(address) => "porkbun API returned an ipv4 address ("@
                + ipv4_text(address) + ") when an ipv6 was expected"@,
            ErrorView::UnexpectedIpv6(address) => "porkbun API returned an ipv6 address ("@
                + ipv6_text(address) + ") when an ipv4 was expected"@,
        }
    }
}

impl Error {
    /// Whether the failure is a reply that does not have the expected
    /// shape.
    pub fn is_malformed(&self) -> (r: bool)
        ensures
            r == self@.is_malformed(),
    {
        match self {
            Error::MalformedApi { .. } => true,
            Error::MalformedApiSerde { .. } => true,
            _ => false,
        }
    }

    /// The line that reports the failure.
    pub fn message(&self) -> (r: String)
        ensures
            r@ == self@.text(),
    {
        match self {
            Error::Io { message } => message.clone(),
            Error::Request { message } => message.clone(),
            Error::Json { message } => message.clone(),
            Error::Api { message } => {
                let mut out = "porkbun API returned an error: \"".to_owned();
                out.append(message.as_str());
                out.append("\"");
                out
            },
            Error::MalformedApi { response } => {
                let mut out = "porkbun API returned an unrecognized response (".to_owned();
                out.append(response.as_str());
                out.append(")");
                out
            },
            Error::MalformedApiSerde { error, response } => {
                let mut out = "porkbun API returned an unrecognized response (".to_owned();
                out.append(response.as_str());
                out.append("): ");
                out.append(error.as_str());
                out
            },
            Error::UnexpectedIpv4(address) => {
                let mut out = "porkbun API returned an ipv4 address (".to_owned();
                address.write(&mut out);
                out.append(") when an ipv6 was expected");
                out
            },
            Error::UnexpectedIpv6(address) => {
                let mut out = "porkbun API returned an ipv6 address (".to_owned();
                address.write(&mut out);
                out.append(") when an ipv4 was expected");
                out
            },
        }
    }
}

} // verus!
