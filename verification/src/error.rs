//! The errors of the client.

use crate::signer::AuthError;
use vstd::prelude::*;
use vstd::string::*;

verus! {

/// Why an operation failed.
#[derive(Debug, Clone, PartialEq, Eq)]
pub enum BlobscanClientError {
    /// No bearer token could be signed.
    Auth(AuthError),
    /// The network failed; the text is the transport's own description.
    Transport(String),
    /// The service answered with a status that the operation does not
    /// accept; `body` is the response body as it came.
    Remote { status: u16, body: String },
    /// A response body did not have the expected shape; the text says how.
    Decode(String),
}

/// What an operation of the client returns.
pub type BlobscanClientResult<T> = Result<T, BlobscanClientError>;

impl BlobscanClientError {
    /// What `message` returns.
    pub open spec fn spec_message(self) -> Seq<char> {
        match self {
            BlobscanClientError::Auth(_) => "failed to sign the bearer token"@,
            BlobscanClientError::Transport(description) => description@,
            BlobscanClientError::Remote { status, body } => body@,
            BlobscanClientError::Decode(description) => description@,
        }
    }

    /// The error as text: the response body of a remote error as it came,
    /// the description of a transport or decoding error, and a fixed
    /// sentence where signing failed.
    pub fn message(&self) -> (text: String)
        ensures
            text@ == self.spec_message(),
    {
        match self {
            BlobscanClientError::Auth(_) => String::from_str("failed to sign the bearer token"),
            BlobscanClientError::Transport(description) => description.clone(),
            BlobscanClientError::Remote { status: _, body } => body.clone(),
            BlobscanClientError::Decode(description) => description.clone(),
        }
    }
}

} // verus!
