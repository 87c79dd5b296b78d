use vstd::prelude::*;
use vstd::string::StringExecFns;

verus! {

/// Why a request could not be built, sent or read.
#[derive(Debug, Clone, PartialEq, Eq)]
pub enum ClientError {
    RequestBuildError(String),
    RequestSendError(String),
    ResponseParseError(String),
}

/// The text of an error: what went wrong, then the reason between
/// backticks.
pub open spec fn message_of(error: ClientError) -> Seq<char> {
    match error {
        ClientError::RequestBuildError(reason) => {
            "Error while building http::Request. Reason: `"@ + reason@ + "`."@
        },
        ClientError::RequestSendError(reason) => {
            "Error while sending request. Reason: `"@ + reason@ + "`."@
        },
        ClientError::ResponseParseError(reason) => {
            "Error while parsing response to required type. Reason: `"@ + reason@ + "`."@
        },
    }
}

impl ClientError {
    /// The error as text for a reader.
    pub fn message(&self) -> (text: String)
        ensures
            text@ == message_of(*self),
    {
        let (head, reason) = match self {
            ClientError::RequestBuildError(reason) => (
                "Error while building http::Request. Reason: `",
                reason,
            ),
            ClientError::RequestSendError(reason) => (
                "Error while sending request. Reason: `",
                reason,
            ),
            ClientError::ResponseParseError(reason) => (
                "Error while parsing response to required type. Reason: `",
                reason,
            ),
        };
        let mut text = String::from_str(head);
        text.append(reason.as_str());
        text.append("`.");
        text
    }
}

/// The result of an operation of the client.
pub type Result<T> = std::result::Result<T, ClientError>;

} // verus!
