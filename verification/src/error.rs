//! The one error kind of the client, and the texts it is raised with.

use vstd::prelude::*;
use vstd::string::StringExecFns;

verus! {

/// Failure of a client operation.
#[derive(Debug)]
pub enum EvmClientError {
    /// An RPC or connection failure, with a description of what failed.
    RpcError(String),
}

/// Text of the error raised when no address of a list yields a provider.
pub open spec fn all_links_invalid_text() -> Seq<char> {
    "All RPC links are invalid"@
}

/// Text of the error raised when the provider refuses an address;
/// `cause` is the refusal as the provider reports it.
pub open spec fn rpc_error_text(cause: Seq<char>) -> Seq<char> {
    "RPC Error: "@ + cause
}

/// Text of the error raised when a private key does not parse.
pub open spec fn key_error_text(cause: Seq<char>) -> Seq<char> {
    "Failed to parse private key: "@ + cause
}

/// Text of the error raised when the chain-ID round trip fails.
pub open spec fn health_error_text(cause: Seq<char>) -> Seq<char> {
    "Health check failed: "@ + cause
}

impl EvmClientError {
    /// The description carried by the error.
    pub open spec fn spec_message(self) -> Seq<char> {
        match self {
            EvmClientError::RpcError(msg) => msg@,
        }
    }

    /// The error whose description is `prefix` followed by `cause`.
    pub fn with_cause(prefix: &str, cause: &str) -> (e: EvmClientError)
        ensures
            e.spec_message() == prefix@ + cause@,
    {
        let text = String::from_str(prefix).concat(cause);
        EvmClientError::RpcError(text)
    }

    /// The description carried by the error.
    pub fn message(&self) -> (msg: &str)
        ensures
            msg@ == self.spec_message(),
    {
        match self {
            EvmClientError::RpcError(msg) => msg.as_str(),
        }
    }

    /// The error as it is displayed: the description behind `RPC error: `.
    pub fn to_string(&self) -> (text: String)
        ensures
            text@ == "RPC error: "@ + self.spec_message(),
    {
        String::from_str("RPC error: ").concat(self.message())
    }
}

} // verus!
