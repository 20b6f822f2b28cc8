//! Errors of the agent.

use crate::protocol::error::{ProtocolError, ProtocolErrorModel};
use crate::wire::Wire;
use vstd::prelude::*;
use vstd::string::*;

verus! {

/// An error of the agent. What came from outside is kept as its text.
#[derive(Debug)]
pub enum Error {
    Config(String),
    State(String),
    Io(String),
    Transport(String),
    Auth(String),
    Protocol(ProtocolError),
    Http(String),
    Json(String),
    Task(String),
    Unit(String),
    Sha256Mismatch { expected: String, actual: String },
    Join(String),
}

/// What a value of [`Error`] is.
#[verifier::ext_equal]
pub enum ErrorModel {
    Config(Seq<char>),
    State(Seq<char>),
    Io(Seq<char>),
    Transport(Seq<char>),
    Auth(Seq<char>),
    Protocol(ProtocolErrorModel),
    Http(Seq<char>),
    Json(Seq<char>),
    Task(Seq<char>),
    Unit(Seq<char>),
    Sha256Mismatch { expected: Seq<char>, actual: Seq<char> },
    Join(Seq<char>),
}

impl View for Error {
    type V = ErrorModel;

    open spec fn view(&self) -> ErrorModel {
        match self {
            Error::Config(s) => ErrorModel::Config(s@),
            Error::State(s) => ErrorModel::State(s@),
            Error::Io(s) => ErrorModel::Io(s@),
            Error::Transport(s) => ErrorModel::Transport(s@),
            Error::Auth(s) => ErrorModel::Auth(s@),
            Error::Protocol(e) => ErrorModel::Protocol(e.model()),
            Error::Http(s) => ErrorModel::Http(s@),
            Error::Json(s) => ErrorModel::Json(s@),
            Error::Task(s) => ErrorModel::Task(s@),
            Error::Unit(s) => ErrorModel::Unit(s@),
            Error::Sha256Mismatch { expected, actual } => ErrorModel::Sha256Mismatch {
                expected: expected@,
                actual: actual@,
            },
            Error::Join(s) => ErrorModel::Join(s@),
        }
    }
}

impl ErrorModel {
    /// The error in words.
    pub open spec fn text(self) -> Seq<char> {
        match self {
            ErrorModel::Config(s) => "configuration: "@ + s,
            ErrorModel::State(s) => "state store: "@ + s,
            ErrorModel::Io(s) => "I/O: "@ + s,
            ErrorModel::Transport(s) => "transport: "@ + s,
            ErrorModel::Auth(s) => "authentication: "@ + s,
            ErrorModel::Protocol(e) => "protocol: "@ + ProtocolError::text(e),
            ErrorModel::Http(s) => "HTTP: "@ + s,
            ErrorModel::Json(s) => "JSON: "@ + s,
            ErrorModel::Task(s) => "task: "@ + s,
            ErrorModel::Unit(s) => "unit management: "@ + s,
            ErrorModel::Sha256Mismatch { expected, actual } => "SHA-256 mismatch: expected "@
                + expected + ", got "@ + actual,
            ErrorModel::Join(s) => "join: "@ + s,
        }
    }
}

/// Two texts, one behind the other.
pub fn joined(a: &str, b: &str) -> (r: String)
    ensures
        r@ == a@ + b@,
{
    let mut s: String = a.to_owned();
    s.append(b);
    s
}

impl Error {
    /// A copy.
    pub fn duplicate(&self) -> (r: Error)
        ensures
            r@ == self@,
    {
        match self {
            Error::Config(s) => Error::Config(s.clone()),
            Error::State(s) => Error::State(s.clone()),
            Error::Io(s) => Error::Io(s.clone()),
            Error::Transport(s) => Error::Transport(s.clone()),
            Error::Auth(s) => Error::Auth(s.clone()),
            Error::Protocol(e) => Error::Protocol(
                ProtocolError {
                    code: e.code,
                    message: e.message.clone(),
                    data: match &e.data {
                        Some(d) => Some(d.clone()),
                        None => None,
                    },
                },
            ),
            Error::Http(s) => Error::Http(s.clone()),
            Error::Json(s) => Error::Json(s.clone()),
            Error::Task(s) => Error::Task(s.clone()),
            Error::Unit(s) => Error::Unit(s.clone()),
            Error::Sha256Mismatch { expected, actual } => Error::Sha256Mismatch {
                expected: expected.clone(),
                actual: actual.clone(),
            },
            Error::Join(s) => Error::Join(s.clone()),
        }
    }

    /// The error in words.
    pub fn to_text(&self) -> (r: String)
        ensures
            r@ == self@.text(),
    {
        match self {
            Error::Config(s) => joined("configuration: ", s.as_str()),
            Error::State(s) => joined("state store: ", s.as_str()),
            Error::Io(s) => joined("I/O: ", s.as_str()),
            Error::Transport(s) => joined("transport: ", s.as_str()),
            Error::Auth(s) => joined("authentication: ", s.as_str()),
            Error::Protocol(e) => joined("protocol: ", e.to_text().as_str()),
            Error::Http(s) => joined("HTTP: ", s.as_str()),
            Error::Json(s) => joined("JSON: ", s.as_str()),
            Error::Task(s) => joined("task: ", s.as_str()),
            Error::Unit(s) => joined("unit management: ", s.as_str()),
            Error::Sha256Mismatch { expected, actual } => {
                let mut s: String = joined("SHA-256 mismatch: expected ", expected.as_str());
                s.append(", got ");
                s.append(actual.as_str());
                s
            },
            Error::Join(s) => joined("join: ", s.as_str()),
        }
    }
}

/// An error says of what kind it is, and then what went wrong.
pub proof fn law_errors_say_their_kind(e: ErrorModel)
    ensures
        match e {
            ErrorModel::Config(s) => e.text() == "configuration: "@ + s,
            ErrorModel::State(s) => e.text() == "state store: "@ + s,
            ErrorModel::Io(s) => e.text() == "I/O: "@ + s,
            ErrorModel::Transport(s) => e.text() == "transport: "@ + s,
            ErrorModel::Auth(s) => e.text() == "authentication: "@ + s,
            ErrorModel::Protocol(p) => e.text() == "protocol: "@ + ("["@ + crate::text::signed_decimal(
                p.code as int,
            ) + "] "@ + p.message),
            ErrorModel::Http(s) => e.text() == "HTTP: "@ + s,
            ErrorModel::Json(s) => e.text() == "JSON: "@ + s,
            ErrorModel::Task(s) => e.text() == "task: "@ + s,
            ErrorModel::Unit(s) => e.text() == "unit management: "@ + s,
            ErrorModel::Sha256Mismatch { expected, actual } => e.text()
                == "SHA-256 mismatch: expected "@ + expected + ", got "@ + actual,
            ErrorModel::Join(s) => e.text() == "join: "@ + s,
        },
{
    reveal_strlit("[");
    assert("["@ =~= seq!['[']);
}

} // verus!
