use vstd::prelude::*;
use vstd::string::*;
use crate::text::push_decimal;

verus! {

/// Why a token was not accepted.
#[derive(Clone, Copy, Debug, PartialEq, Eq, Structural)]
pub enum Rejection {
    /// The provider's key set is no list of keys, or holds none for RS256.
    NoSigningKey,
    /// The key for RS256 is not a usable key.
    InvalidKey,
    /// The signature does not fit, the token is malformed or expired, it
    /// names no subject, or it is meant for another audience.
    Token,
    /// The token was issued by someone else than the provider.
    Issuer,
    /// A claim is missing or of the wrong type.
    Claims,
}

impl Rejection {
    pub open spec fn reason(self) -> Seq<char> {
        match self {
            Rejection::NoSigningKey => "no RS256 key found"@,
            Rejection::InvalidKey => "failed to retrieve decoding key"@,
            Rejection::Token => "token rejected"@,
            Rejection::Issuer => "JWT issuer is incorrect"@,
            Rejection::Claims => "claims are incomplete"@,
        }
    }

    pub fn as_str(&self) -> (r: &'static str)
        ensures
            r@ == self.reason(),
    {
        match self {
            Rejection::NoSigningKey => "no RS256 key found",
            Rejection::InvalidKey => "failed to retrieve decoding key",
            Rejection::Token => "token rejected",
            Rejection::Issuer => "JWT issuer is incorrect",
            Rejection::Claims => "claims are incomplete",
        }
    }
}

/// What can go wrong between this service and the two remote ones.
#[derive(Debug, PartialEq, Eq)]
pub enum EsiError {
    /// The request did not get through, or no reply came back. Holds what the
    /// transport said.
    Network(String),
    /// The remote side replied with a status outside 200 to 299.
    Http { status: u16, body: String },
    /// The reply is no JSON, or a field that is needed is missing from it.
    Decode,
    /// The token is not to be trusted.
    Validation(Rejection),
}

pub enum EsiErrorView {
    Network(Seq<char>),
    Http { status: int, body: Seq<char> },
    Decode,
    Validation(Rejection),
}

impl View for EsiError {
    type V = EsiErrorView;

    open spec fn view(&self) -> EsiErrorView {
        match self {
            EsiError::Network(e) => EsiErrorView::Network(e@),
            EsiError::Http { status, body } => EsiErrorView::Http {
                status: *status as int,
                body: body@,
            },
            EsiError::Decode => EsiErrorView::Decode,
            EsiError::Validation(r) => EsiErrorView::Validation(*r),
        }
    }
}

impl EsiErrorView {
    /// The error in words.
    pub open spec fn message(self) -> Seq<char> {
        match self {
            EsiErrorView::Network(e) => "failed to send request: "@ + e,
            EsiErrorView::Http { status, body } => "request failed with status "@
                + crate::text::decimal_nat(status as nat) + ": "@ + body,
            EsiErrorView::Decode => "failed to decode JSON"@,
            EsiErrorView::Validation(r) => "failed to validate JWT: "@ + r.reason(),
        }
    }
}

impl Clone for EsiError {
    fn clone(&self) -> (r: Self)
        ensures
            r == *self,
    {
        match self {
            EsiError::Network(e) => EsiError::Network(e.clone()),
            EsiError::Http { status, body } => EsiError::Http {
                status: *status,
                body: body.clone(),
            },
            EsiError::Decode => EsiError::Decode,
            EsiError::Validation(r) => EsiError::Validation(*r),
        }
    }
}

impl EsiError {
    /// The error in words, for a log or a reply.
    pub fn message(&self) -> (r: String)
        ensures
            r@ == self@.message(),
    {
        match self {
            EsiError::Network(e) => {
                let mut out = String::from_str("failed to send request: ");
                out.append(e.as_str());
                out
            },
            EsiError::Http { status, body } => {
                let mut out = String::from_str("request failed with status ");
                push_decimal(&mut out, *status as u64);
                out.append(": ");
                out.append(body.as_str());
                out
            },
            EsiError::Decode => String::from_str("failed to decode JSON"),
            EsiError::Validation(r) => {
                let mut out = String::from_str("failed to validate JWT: ");
                out.append(r.as_str());
                out
            },
        }
    }
}

} // verus!
