//! The error taxonomy shared by every component.

use vstd::prelude::*;

verus! {

/// An error raised while serving a chat turn or provisioning an assistant:
/// either the relational store failed, or the remote assistant service did
/// (a transport failure, a non-success status, or an undecodable body).
/// The payload carries the underlying message for the HTTP layer to report.
pub enum AssistantError {
    DatabaseError(String),
    OpenAIError(String),
}

impl AssistantError {
    /// The HTTP status class a handler reports this error with:
    /// store failures are the server's own (500), remote-service failures
    /// are a bad gateway (502).
    pub fn status_code(&self) -> (code: u16)
        ensures
            code == self.spec_status_code(),
    {
        match self {
            AssistantError::DatabaseError(_) => 500,
            AssistantError::OpenAIError(_) => 502,
        }
    }

    pub open spec fn spec_status_code(&self) -> u16 {
        match self {
            AssistantError::DatabaseError(_) => 500u16,
            AssistantError::OpenAIError(_) => 502u16,
        }
    }

    /// The underlying message, for the `{error: ...}` response body.
    pub fn message(&self) -> (msg: &String)
        ensures
            msg@ == self.spec_message(),
    {
        match self {
            AssistantError::DatabaseError(msg) => msg,
            AssistantError::OpenAIError(msg) => msg,
        }
    }

    pub open spec fn spec_message(&self) -> Seq<char> {
        match self {
            AssistantError::DatabaseError(msg) => msg@,
            AssistantError::OpenAIError(msg) => msg@,
        }
    }
}

} // verus!
