//! The ways a request can fail, and the response that reports each.

use vstd::prelude::*;
use vstd::string::*;
use crate::response::{plain, Response, ResponseView};
use crate::text::{decimal_string, decimal_text};

verus! {

/// What went wrong in a round trip to the store.
#[derive(Clone, Debug, PartialEq, Eq)]
pub enum StoreFault {
    /// The call failed; the text holds the store client's words.
    Failed(String),
    /// An upsert was answered without the updated record.
    EmptyReply,
    /// What the store returned is not a record.
    Undecodable,
}

/// Why a request failed.
#[derive(Clone, Debug, PartialEq, Eq)]
pub enum ServiceError {
    /// The path is not a slash and an identifier.
    Validation,
    /// The method is neither the read nor the write method.
    MethodNotSupported,
    /// The clock gave no time.
    Clock,
    /// The store failed on the read of `key`.
    StoreRead { fault: StoreFault, key: String },
    /// The store failed on the upsert of `key`; `exp` and `now` are the
    /// times that were sent.
    StoreUpsert { fault: StoreFault, key: String, exp: u64, now: u64 },
    /// The record could not be encoded.
    Serialization,
}

/// A store fault as a mathematical value.
pub enum StoreFaultView {
    Failed(Seq<char>),
    EmptyReply,
    Undecodable,
}

/// A failure as a mathematical value.
pub enum ServiceErrorView {
    Validation,
    MethodNotSupported,
    Clock,
    StoreRead { fault: StoreFaultView, key: Seq<char> },
    StoreUpsert { fault: StoreFaultView, key: Seq<char>, exp: u64, now: u64 },
    Serialization,
}

impl View for StoreFault {
    type V = StoreFaultView;

    open spec fn view(&self) -> StoreFaultView {
        match self {
            StoreFault::Failed(detail) => StoreFaultView::Failed(detail@),
            StoreFault::EmptyReply => StoreFaultView::EmptyReply,
            StoreFault::Undecodable => StoreFaultView::Undecodable,
        }
    }
}

impl View for ServiceError {
    type V = ServiceErrorView;

    open spec fn view(&self) -> ServiceErrorView {
        match self {
            ServiceError::Validation => ServiceErrorView::Validation,
            ServiceError::MethodNotSupported => ServiceErrorView::MethodNotSupported,
            ServiceError::Clock => ServiceErrorView::Clock,
            ServiceError::StoreRead { fault, key } => ServiceErrorView::StoreRead {
                fault: fault@,
                key: key@,
            },
            ServiceError::StoreUpsert { fault, key, exp, now } => ServiceErrorView::StoreUpsert {
                fault: fault@,
                key: key@,
                exp: *exp,
                now: *now,
            },
            ServiceError::Serialization => ServiceErrorView::Serialization,
        }
    }
}

impl StoreFaultView {
    /// The words that describe the fault: the store client's own for a
    /// failed call, fixed ones otherwise.
    pub open spec fn words(self) -> Seq<char> {
        match self {
            StoreFaultView::Failed(detail) => detail,
            StoreFaultView::EmptyReply => "missing data after update"@,
            StoreFaultView::Undecodable => "deserialization failure"@,
        }
    }
}

impl ServiceErrorView {
    /// The status code that reports the failure: 400 and 405 for what the
    /// client sent, 500 for everything else.
    pub open spec fn status(self) -> u16 {
        match self {
            ServiceErrorView::Validation => 400,
            ServiceErrorView::MethodNotSupported => 405,
            _ => 500,
        }
    }

    /// The plain text that reports the failure. A store failure is reported
    /// with its context: the key and, for an upsert, the times that were
    /// sent.
    pub open spec fn message(self) -> Seq<char> {
        match self {
            ServiceErrorView::Validation => "bad request"@,
            ServiceErrorView::MethodNotSupported => "method not allowed"@,
            ServiceErrorView::Clock => "Internal Server Error: system time is unavailable"@,
            ServiceErrorView::StoreRead { fault, key } => "Internal Server Error: "@ + fault.words()
                + "; key="@ + key + ";"@,
            ServiceErrorView::StoreUpsert { fault, key, exp, now } => "Internal Server Error: "@
                + fault.words() + "; key="@ + key + "; exp="@ + decimal_text(exp as nat)
                + "; now="@ + decimal_text(now as nat) + ";"@,
            ServiceErrorView::Serialization => "Internal Server Error: response serialization failed;"@,
        }
    }

    /// The response that reports the failure.
    pub open spec fn reply(self) -> ResponseView {
        plain(self.status(), self.message())
    }
}

impl StoreFault {
    /// The words that describe the fault.
    pub fn words(&self) -> (text: &str)
        ensures
            text@ == self@.words(),
    {
        match self {
            StoreFault::Failed(detail) => detail.as_str(),
            StoreFault::EmptyReply => "missing data after update",
            StoreFault::Undecodable => "deserialization failure",
        }
    }
}

impl ServiceError {
    /// The status code that reports the failure.
    pub fn status(&self) -> (code: u16)
        ensures
            code == self@.status(),
    {
        match self {
            ServiceError::Validation => 400,
            ServiceError::MethodNotSupported => 405,
            _ => 500,
        }
    }

    /// The plain text that reports the failure.
    pub fn message(&self) -> (text: String)
        ensures
            text@ == self@.message(),
    {
        match self {
            ServiceError::Validation => String::from_str("bad request"),
            ServiceError::MethodNotSupported => String::from_str("method not allowed"),
            ServiceError::Clock => String::from_str(
                "Internal Server Error: system time is unavailable",
            ),
            ServiceError::StoreRead { fault, key } => {
                let mut text = String::from_str("Internal Server Error: ");
                text.append(fault.words());
                text.append("; key=");
                text.append(key.as_str());
                text.append(";");
                text
            },
            ServiceError::StoreUpsert { fault, key, exp, now } => {
                let mut text = String::from_str("Internal Server Error: ");
                text.append(fault.words());
                text.append("; key=");
                text.append(key.as_str());
                text.append("; exp=");
                text.append(decimal_string(*exp).as_str());
                text.append("; now=");
                text.append(decimal_string(*now).as_str());
                text.append(";");
                text
            },
            ServiceError::Serialization => String::from_str(
                "Internal Server Error: response serialization failed;",
            ),
        }
    }

    /// The response that reports the failure to the client.
    pub fn response(&self) -> (r: Response)
        ensures
            r@ == self@.reply(),
    {
        Response::plain_text(self.status(), self.message())
    }
}

} // verus!
