//! The errors that end the process or a session, and how they read.

use vstd::prelude::*;
use vstd::string::StringExecFns;

verus! {

/// Possible errors as might occur during the operation of the application.
/// Each one contains an optional `String` describing more detail for such error.
#[derive(Debug, Clone, PartialEq, Eq)]
pub enum OperationError {
    ErrorInternalGeneric(Option<String>),
    ErrorMissingRequiredEnvVar(Option<String>),
    ErrorWssConnect(Option<String>),
    ErrorWssTopicSubscription(Option<String>),
    ErrorInternalSyncCommunication(Option<String>),
}

impl OperationError {
    /// What the kind of error says by itself.
    pub open spec fn headline(self) -> Seq<char> {
        match self {
            OperationError::ErrorInternalGeneric(_) => "error internal generic"@,
            OperationError::ErrorMissingRequiredEnvVar(_) =>
                "error missing required environment variable"@,
            OperationError::ErrorWssConnect(_) => "error connecting to WSS"@,
            OperationError::ErrorWssTopicSubscription(_) =>
                "error subscribing to a topic of websocket"@,
            OperationError::ErrorInternalSyncCommunication(_) =>
                "error in internal syncing-communication mechanism"@,
        }
    }

    /// The detail that the error carries, if any.
    pub open spec fn detail(self) -> Option<Seq<char>> {
        match self {
            OperationError::ErrorInternalGeneric(Some(detail)) => Some(detail@),
            OperationError::ErrorMissingRequiredEnvVar(Some(detail)) => Some(detail@),
            OperationError::ErrorWssConnect(Some(detail)) => Some(detail@),
            OperationError::ErrorWssTopicSubscription(Some(detail)) => Some(detail@),
            OperationError::ErrorInternalSyncCommunication(Some(detail)) => Some(detail@),
            _ => None,
        }
    }

    /// How the error reads: the headline, then `"; "` and the detail where
    /// there is one. A connection error without detail keeps the semicolon.
    pub open spec fn message_text(self) -> Seq<char> {
        match self.detail() {
            Some(detail) => self.headline() + "; "@ + detail,
            None => if self is ErrorWssConnect {
                self.headline() + ";"@
            } else {
                self.headline()
            },
        }
    }

    /// Writes the error out in words.
    pub fn message(&self) -> (text: String)
        ensures
            text@ == self.message_text(),
    {
        let (headline, detail): (&str, &Option<String>) = match self {
            OperationError::ErrorInternalGeneric(detail) => ("error internal generic", detail),
            OperationError::ErrorMissingRequiredEnvVar(detail) => (
                "error missing required environment variable",
                detail,
            ),
            OperationError::ErrorWssConnect(detail) => ("error connecting to WSS", detail),
            OperationError::ErrorWssTopicSubscription(detail) => (
                "error subscribing to a topic of websocket",
                detail,
            ),
            OperationError::ErrorInternalSyncCommunication(detail) => (
                "error in internal syncing-communication mechanism",
                detail,
            ),
        };
        let mut text = String::from_str(headline);
        match detail {
            Some(detail) => {
                text.append("; ");
                text.append(detail.as_str());
            },
            None => {
                if let OperationError::ErrorWssConnect(_) = self {
                    text.append(";");
                }
            },
        }
        text
    }
}

} // verus!
