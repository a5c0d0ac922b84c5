//! What can end a business cycle, and how it is put into words.

use crate::api::ApiError;
use crate::text::{append_signed, decimal_text};
use vstd::prelude::*;
use vstd::string::*;

verus! {

/// Why a notification was not delivered.
#[derive(Debug, PartialEq, Eq)]
pub enum NotifyError {
    /// The request did not complete; the text is the transport's account of it.
    Transport(String),
    /// The webhook answered with a status outside 200 to 299.
    Status(u16),
}

/// Everything that ends a business cycle and sends the agent into its
/// cooldown.
#[derive(Debug, PartialEq, Eq)]
pub enum AgentError {
    /// An operation of the gateway failed.
    Api(ApiError),
    /// A timestamp of the service was not a decimal number; the text is what
    /// it sent.
    Timestamp(String),
    /// The service reported a day for which its list has no award: the
    /// position that was asked for, counted from zero.
    AwardIndex(i64),
    /// The success notification was not delivered.
    Notify(NotifyError),
    /// The caller reported an event that answers no request of the current
    /// phase.
    UnexpectedEvent,
}

impl ApiError {
    /// The error in words.
    pub open spec fn text(self) -> Seq<char> {
        match self {
            ApiError::Transport(detail) => detail@,
            ApiError::Status(status) => "API answered with status "@ + decimal_text(status as int),
            ApiError::Malformed(detail) => detail@,
            ApiError::Retcode(code) => "API returned unhandled retcode `"@ + decimal_text(
                code as int,
            ) + "`"@,
            ApiError::MissingData => "response has retcode 0 but is missing data"@,
        }
    }

    /// Puts the error into words.
    pub fn describe(&self) -> (out: String)
        ensures
            out@ == self.text(),
    {
        match self {
            ApiError::Transport(detail) => detail.clone(),
            ApiError::Status(status) => {
                let mut out = String::from_str("API answered with status ");
                append_signed(&mut out, *status as i64);
                out
            },
            ApiError::Malformed(detail) => detail.clone(),
            ApiError::Retcode(code) => {
                let mut out = String::from_str("API returned unhandled retcode `");
                append_signed(&mut out, *code as i64);
                out.append("`");
                out
            },
            ApiError::MissingData => String::from_str("response has retcode 0 but is missing data"),
        }
    }
}

impl NotifyError {
    /// The error in words.
    pub open spec fn text(self) -> Seq<char> {
        match self {
            NotifyError::Transport(detail) => detail@,
            NotifyError::Status(status) => "webhook answered with status "@ + decimal_text(
                status as int,
            ),
        }
    }

    /// Puts the error into words.
    pub fn describe(&self) -> (out: String)
        ensures
            out@ == self.text(),
    {
        match self {
            NotifyError::Transport(detail) => detail.clone(),
            NotifyError::Status(status) => {
                let mut out = String::from_str("webhook answered with status ");
                append_signed(&mut out, *status as i64);
                out
            },
        }
    }
}

impl AgentError {
    /// The error in words.
    pub open spec fn text(self) -> Seq<char> {
        match self {
            AgentError::Api(e) => e.text(),
            AgentError::Timestamp(sent) => "API sent invalid timestamp: "@ + sent@,
            AgentError::AwardIndex(index) => "API sent invalid awards index: "@ + decimal_text(
                index as int,
            ),
            AgentError::Notify(e) => e.text(),
            AgentError::UnexpectedEvent => "event does not answer the pending request"@,
        }
    }

    /// Puts the error into words.
    pub fn describe(&self) -> (out: String)
        ensures
            out@ == self.text(),
    {
        match self {
            AgentError::Api(e) => e.describe(),
            AgentError::Timestamp(sent) => {
                let mut out = String::from_str("API sent invalid timestamp: ");
                out.append(sent.as_str());
                out
            },
            AgentError::AwardIndex(index) => {
                let mut out = String::from_str("API sent invalid awards index: ");
                append_signed(&mut out, *index);
                out
            },
            AgentError::Notify(e) => e.describe(),
            AgentError::UnexpectedEvent => String::from_str(
                "event does not answer the pending request",
            ),
        }
    }
}

} // verus!
