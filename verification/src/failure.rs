//! The ways a run can fail, and what is said about each.

use vstd::prelude::*;
use vstd::string::StringExecFns;

verus! {

/// A member that a document is read for.
#[derive(Clone, Copy, Debug, PartialEq, Eq, Structural)]
pub enum Field {
    Secret,
    Counter,
    Pin,
    Response,
    HotpSecret,
    Stat,
}

impl Field {
    /// The key under which the member stands in its object.
    pub open spec fn key(self) -> Seq<char> {
        match self {
            Field::Secret => "secret"@,
            Field::Counter => "counter"@,
            Field::Pin => "pin"@,
            Field::Response => "response"@,
            Field::HotpSecret => "hotp_secret"@,
            Field::Stat => "stat"@,
        }
    }

    pub fn name(self) -> (r: &'static str)
        ensures
            r@ == self.key(),
    {
        match self {
            Field::Secret => "secret",
            Field::Counter => "counter",
            Field::Pin => "pin",
            Field::Response => "response",
            Field::HotpSecret => "hotp_secret",
            Field::Stat => "stat",
        }
    }
}

/// Why a text could not be decoded.
#[derive(Clone, Debug, PartialEq, Eq)]
pub enum DecodeError {
    /// The text is not a JSON document. Holds the parser's message.
    Syntax(String),
    /// The document has no such member.
    Missing(Field),
    /// The member is there and holds a value of another type.
    Mistyped(Field),
}

/// A decoding failure as a mathematical value.
pub enum DecodeFault {
    Syntax(Seq<char>),
    Missing(Field),
    Mistyped(Field),
}

impl DecodeFault {
    /// The failure in words: what is wrong, then the parser's message or
    /// the member's key.
    pub open spec fn message(self) -> Seq<char> {
        match self {
            DecodeFault::Syntax(detail) => "malformed JSON: "@ + detail,
            DecodeFault::Missing(field) => "missing field "@ + field.key(),
            DecodeFault::Mistyped(field) => "wrong type for field "@ + field.key(),
        }
    }
}

impl View for DecodeError {
    type V = DecodeFault;

    open spec fn view(&self) -> DecodeFault {
        match self {
            DecodeError::Syntax(detail) => DecodeFault::Syntax(detail@),
            DecodeError::Missing(field) => DecodeFault::Missing(*field),
            DecodeError::Mistyped(field) => DecodeFault::Mistyped(*field),
        }
    }
}

impl DecodeError {
    /// The failure in words.
    pub fn message(&self) -> (r: String)
        ensures
            r@ == self@.message(),
    {
        match self {
            DecodeError::Syntax(detail) => {
                let mut text = String::from_str("malformed JSON: ");
                text.append(detail.as_str());
                text
            },
            DecodeError::Missing(field) => {
                let mut text = String::from_str("missing field ");
                text.append(field.name());
                text
            },
            DecodeError::Mistyped(field) => {
                let mut text = String::from_str("wrong type for field ");
                text.append(field.name());
                text
            },
        }
    }
}

/// Why a run ended without success.
#[derive(Clone, Debug, PartialEq, Eq)]
pub enum Failure {
    /// The activation exchange itself failed: no connection, a timeout, a
    /// status that is not a success. Holds the transport's own words.
    Transport(String),
    /// A persisted state or a response body is not what it should be.
    Decode(DecodeError),
    /// The state could not be read or written. Holds the system's words.
    Io(String),
    /// The counter has reached its last value: no further code can be
    /// issued for this secret.
    CounterExhausted,
    /// An event arrived that the run had not asked for.
    OutOfTurn,
}

/// A failure as a mathematical value.
pub enum FailureModel {
    Transport(Seq<char>),
    Decode(DecodeFault),
    Io(Seq<char>),
    CounterExhausted,
    OutOfTurn,
}

impl FailureModel {
    /// The diagnostic: the kind of failure, then its cause.
    pub open spec fn message(self) -> Seq<char> {
        match self {
            FailureModel::Transport(detail) => "TransportError: "@ + detail,
            FailureModel::Decode(fault) => "DecodeError: "@ + fault.message(),
            FailureModel::Io(detail) => "IOError: "@ + detail,
            FailureModel::CounterExhausted => "counter exhausted"@,
            FailureModel::OutOfTurn => "event out of turn"@,
        }
    }
}

impl View for Failure {
    type V = FailureModel;

    open spec fn view(&self) -> FailureModel {
        match self {
            Failure::Transport(detail) => FailureModel::Transport(detail@),
            Failure::Decode(e) => FailureModel::Decode(e@),
            Failure::Io(detail) => FailureModel::Io(detail@),
            Failure::CounterExhausted => FailureModel::CounterExhausted,
            Failure::OutOfTurn => FailureModel::OutOfTurn,
        }
    }
}

impl Failure {
    /// The diagnostic for this failure: its kind, then its cause.
    pub fn message(&self) -> (r: String)
        ensures
            r@ == self@.message(),
    {
        match self {
            Failure::Transport(detail) => {
                let mut text = String::from_str("TransportError: ");
                text.append(detail.as_str());
                text
            },
            Failure::Decode(e) => {
                let mut text = String::from_str("DecodeError: ");
                let cause = e.message();
                text.append(cause.as_str());
                text
            },
            Failure::Io(detail) => {
                let mut text = String::from_str("IOError: ");
                text.append(detail.as_str());
                text
            },
            Failure::CounterExhausted => String::from_str("counter exhausted"),
            Failure::OutOfTurn => String::from_str("event out of turn"),
        }
    }
}

} // verus!
