//! The client handle: a provider for one endpoint, the network it was chosen
//! for where one was named, and a signing credential where one was given.

use crate::backend::{private_key_parse, share_provider, try_provider, url_rejection};
use crate::chain::EvmType;
use crate::error::{
    all_links_invalid_text, health_error_text, key_error_text, rpc_error_text, EvmClientError,
};
use crate::wallet::WalletKey;
use ethers::providers::{Http, Provider};
use std::sync::Arc;
use vstd::prelude::*;
use vstd::string::StringExecFns;

verus! {

/// A provider together with the address it was built for.
pub struct Connection {
    /// The provider.
    pub provider: Provider<Http>,
    /// The address that was handed to the provider's constructor.
    pub address: Ghost<Seq<char>>,
}

/// Handle on one JSON-RPC endpoint of an EVM network.
pub struct EvmClient {
    /// The provider through which requests are made.
    pub provider: Arc<Provider<Http>>,
    /// The network that the endpoint was taken from, if it was chosen by network.
    pub evm_type: Option<EvmType>,
    /// The credential for signing, if one was given.
    pub wallet: Option<WalletKey>,
    /// The address that `provider` was built for.
    pub address: Ghost<Seq<char>>,
}

/// Whether the provider refuses every address of `urls`. True of the empty list.
pub open spec fn all_rejected(urls: Seq<Seq<char>>) -> bool {
    forall|i: int| 0 <= i < urls.len() ==> url_rejection(#[trigger] urls[i]) is Some
}

/// Whether `i` is the first position of `urls` whose address the provider accepts.
pub open spec fn is_first_accepted(urls: Seq<Seq<char>>, i: int) -> bool {
    &&& 0 <= i < urls.len()
    &&& url_rejection(urls[i]) is None
    &&& forall|j: int| 0 <= j < i ==> url_rejection(#[trigger] urls[j]) is Some
}

/// Whether `address` stands at the first position of `urls` whose address
/// the provider accepts.
pub open spec fn is_first_accepted_address(urls: Seq<Seq<char>>, address: Seq<char>) -> bool {
    exists|i: int| #[trigger] is_first_accepted(urls, i) && urls[i] == address
}

/// The error text, if any, of connecting to the first usable address of `urls`.
pub open spec fn list_failure(urls: Seq<Seq<char>>) -> Option<Seq<char>> {
    if all_rejected(urls) {
        Some(all_links_invalid_text())
    } else {
        None
    }
}

/// The error text, if any, of connecting to the one address `url`.
pub open spec fn rpc_failure(url: Seq<char>) -> Option<Seq<char>> {
    match url_rejection(url) {
        Some(cause) => Some(rpc_error_text(cause)),
        None => None,
    }
}

/// The error text, if any, of connecting and then parsing `key`, where
/// connecting alone fails as `connect_failure` says: a connection failure
/// comes first, and the key is looked at only once a provider stands.
pub open spec fn wallet_failure(connect_failure: Option<Seq<char>>, key: Seq<char>) -> Option<
    Seq<char>,
> {
    match connect_failure {
        Some(text) => Some(text),
        None => match private_key_parse(key) {
            Ok(_) => None,
            Err(cause) => Some(key_error_text(cause)),
        },
    }
}

impl Clone for EvmClient {
    /// A second handle on the same provider: no connection is made.
    fn clone(&self) -> (copy: Self)
        ensures
            copy.provider == self.provider,
            copy.address@ == self.address@,
            copy.evm_type == self.evm_type,
            match (self.wallet, copy.wallet) {
                (Some(held), Some(kept)) => kept@ == held@,
                (None, None) => true,
                _ => false,
            },
    {
        let wallet = match &self.wallet {
            Some(key) => Some(key.clone()),
            None => None,
        };
        EvmClient {
            provider: share_provider(&self.provider),
            evm_type: self.evm_type,
            wallet,
            address: self.address,
        }
    }
}

impl EvmClient {
    /// Whether `r` is a client without a credential, tagged `evm_type`, where
    /// `failure` is `None`, and else the error with the text in `failure`.
    pub open spec fn matches_connect(
        r: Result<EvmClient, EvmClientError>,
        failure: Option<Seq<char>>,
        evm_type: Option<EvmType>,
    ) -> bool {
        match r {
            Ok(client) => failure is None && client.evm_type == evm_type && client.wallet is None,
            Err(e) => failure == Some(e.spec_message()),
        }
    }

    /// Whether `r` is a client tagged `evm_type` that holds the key parsed
    /// from `key`, where `failure` is `None`, and else the error with the text
    /// in `failure`.
    pub open spec fn matches_wallet(
        r: Result<EvmClient, EvmClientError>,
        failure: Option<Seq<char>>,
        evm_type: Option<EvmType>,
        key: Seq<char>,
    ) -> bool {
        match r {
            Ok(client) => {
                &&& failure is None
                &&& client.evm_type == evm_type
                &&& client.wallet matches Some(held)
                &&& private_key_parse(key) == Ok::<Seq<u8>, Seq<char>>(held@)
            },
            Err(e) => failure == Some(e.spec_message()),
        }
    }

    /// The client around a provider that stands, without a credential.
    pub fn connected(connection: Connection, evm_type: Option<EvmType>) -> (client: EvmClient)
        ensures
            *client.provider == connection.provider,
            client.address@ == connection.address@,
            client.evm_type == evm_type,
            client.wallet is None,
    {
        EvmClient {
            provider: Arc::new(connection.provider),
            evm_type,
            wallet: None,
            address: connection.address,
        }
    }

    /// The client for what the provider made of a single address: the client
    /// around the provider, or the error that names the provider's complaint.
    pub fn from_connection(outcome: Result<Connection, String>) -> (r: Result<
        EvmClient,
        EvmClientError,
    >)
        ensures
            match outcome {
                Ok(connection) => {
                    &&& r matches Ok(client)
                    &&& *client.provider == connection.provider
                    &&& client.address@ == connection.address@
                    &&& client.evm_type is None
                    &&& client.wallet is None
                },
                Err(cause) => r matches Err(e) && e.spec_message() == rpc_error_text(cause@),
            },
    {
        match outcome {
            Ok(connection) => Ok(Self::connected(connection, None)),
            Err(cause) => Err(EvmClientError::with_cause("RPC Error: ", cause.as_str())),
        }
    }

    /// This client with `key` as its credential.
    pub fn with_wallet(self, key: WalletKey) -> (client: EvmClient)
        ensures
            client.provider == self.provider,
            client.address@ == self.address@,
            client.evm_type == self.evm_type,
            client.wallet == Some(key),
    {
        EvmClient {
            provider: self.provider,
            evm_type: self.evm_type,
            wallet: Some(key),
            address: self.address,
        }
    }

    /// Walks `urls` in list order and stops at the first address that the
    /// provider accepts: the position of that address and the provider
    /// built for it, or `None` where the provider refuses them all. Only the
    /// addresses are examined: no request is sent.
    pub fn first_provider(urls: &Vec<&str>) -> (r: Option<(usize, Connection)>)
        ensures
            match r {
                Some((i, connection)) => is_first_accepted(urls.deep_view(), i as int)
                    && connection.address@ == urls.deep_view()[i as int],
                None => all_rejected(urls.deep_view()),
            },
    {
        let mut i: usize = 0;
        while i < urls.len()
            invariant
                i <= urls.len(),
                forall|j: int| 0 <= j < i ==> url_rejection(#[trigger] urls.deep_view()[j]) is Some,
            decreases urls.len() - i,
        {
            match try_provider(urls[i]) {
                Ok(connection) => {
                    assert(urls.deep_view()[i as int] == urls[i as int]@);
                    return Some((i, connection));
                },
                Err(_) => {},
            }
            i += 1;
        }
        None
    }

    /// Connects to the first address of `urls`, in list order, that the
    /// provider accepts, and tags the client `evm_type`.
    pub fn from_rpc_list(urls: &Vec<&str>, evm_type: Option<EvmType>) -> (r: Result<
        EvmClient,
        EvmClientError,
    >)
        ensures
            Self::matches_connect(r, list_failure(urls.deep_view()), evm_type),
            r matches Ok(client) ==> is_first_accepted_address(
                urls.deep_view(),
                client.address@,
            ),
    {
        match Self::first_provider(urls) {
            Some((_, connection)) => Ok(Self::connected(connection, evm_type)),
            None => Err(EvmClientError::RpcError(String::from_str("All RPC links are invalid"))),
        }
    }

    /// Connects to the first usable endpoint of a network.
    pub fn from_type(evm_type: EvmType) -> (r: Result<EvmClient, EvmClientError>)
        ensures
            Self::matches_connect(r, list_failure(evm_type.spec_rpc()), Some(evm_type)),
            r matches Ok(client) ==> is_first_accepted_address(
                evm_type.spec_rpc(),
                client.address@,
            ),
    {
        let urls = evm_type.rpc();
        Self::from_rpc_list(&urls, Some(evm_type))
    }

    /// Connects to the endpoint at `rpc_url`.
    pub fn from_rpc(rpc_url: &str) -> (r: Result<EvmClient, EvmClientError>)
        ensures
            Self::matches_connect(r, rpc_failure(rpc_url@), None),
            r matches Ok(client) ==> client.address@ == rpc_url@,
    {
        Self::from_connection(try_provider(rpc_url))
    }

    /// Connects to the first usable endpoint of a network and attaches the
    /// credential parsed from `private_key`.
    pub fn from_wallet(evm_type: EvmType, private_key: &str) -> (r: Result<
        EvmClient,
        EvmClientError,
    >)
        ensures
            Self::matches_wallet(
                r,
                wallet_failure(list_failure(evm_type.spec_rpc()), private_key@),
                Some(evm_type),
                private_key@,
            ),
            r matches Ok(client) ==> is_first_accepted_address(
                evm_type.spec_rpc(),
                client.address@,
            ),
    {
        match Self::from_type(evm_type) {
            Ok(client) => match WalletKey::parse(private_key) {
                Ok(key) => Ok(client.with_wallet(key)),
                Err(e) => Err(e),
            },
            Err(e) => Err(e),
        }
    }

    /// Connects to the endpoint at `rpc_url` and attaches the credential
    /// parsed from `private_key`.
    pub fn from_rpc_and_wallet(rpc_url: &str, private_key: &str) -> (r: Result<
        EvmClient,
        EvmClientError,
    >)
        ensures
            Self::matches_wallet(
                r,
                wallet_failure(rpc_failure(rpc_url@), private_key@),
                None,
                private_key@,
            ),
            r matches Ok(client) ==> client.address@ == rpc_url@,
    {
        match Self::from_rpc(rpc_url) {
            Ok(client) => match WalletKey::parse(private_key) {
                Ok(key) => Ok(client.with_wallet(key)),
                Err(e) => Err(e),
            },
            Err(e) => Err(e),
        }
    }

    /// Judges the reply to the chain-ID request that was sent through this
    /// client's provider: `Err` holds the failure as the provider reports it.
    /// A failed request is a failed health check, whatever the failure.
    pub fn health(&self, reply: Result<(), String>) -> (r: Result<(), EvmClientError>)
        ensures
            match reply {
                Ok(_) => r is Ok,
                Err(cause) => r matches Err(e) && e.spec_message() == health_error_text(cause@),
            },
    {
        match reply {
            Ok(_) => Ok(()),
            Err(cause) => Err(EvmClientError::with_cause("Health check failed: ", cause.as_str())),
        }
    }
}

/// A list has at most one first accepted position: the scan has one answer.
pub proof fn lemma_first_accepted_unique(urls: Seq<Seq<char>>, i: int, j: int)
    requires
        is_first_accepted(urls, i),
        is_first_accepted(urls, j),
    ensures
        i == j,
{
}

/// A list has at most one first accepted address: the scan has one answer.
pub proof fn lemma_first_accepted_address_unique(
    urls: Seq<Seq<char>>,
    a: Seq<char>,
    b: Seq<char>,
)
    requires
        is_first_accepted_address(urls, a),
        is_first_accepted_address(urls, b),
    ensures
        a == b,
{
}

/// Where the provider accepts the head of a list, the scan stops there: the
/// first accepted address is the head.
pub proof fn lemma_accepted_head_is_chosen(urls: Seq<Seq<char>>, address: Seq<char>)
    requires
        urls.len() > 0,
        url_rejection(urls[0]) is None,
        is_first_accepted_address(urls, address),
    ensures
        address == urls[0],
{
}

/// Connecting through a list that is empty, or in which the provider
/// refuses every address, fails with the error that says all links are
/// invalid.
pub proof fn lemma_no_usable_link_fails(
    urls: Seq<Seq<char>>,
    evm_type: Option<EvmType>,
    r: Result<EvmClient, EvmClientError>,
)
    requires
        urls.len() == 0 || all_rejected(urls),
        EvmClient::matches_connect(r, list_failure(urls), evm_type),
    ensures
        r matches Err(e) && e.spec_message() == all_links_invalid_text(),
{
}

/// A private key that does not parse never yields a client. Where the
/// connection itself stands, the error is the one that names the parser's
/// complaint; where it does not, the connection's error comes first.
pub proof fn lemma_invalid_key_fails(
    connect_failure: Option<Seq<char>>,
    evm_type: Option<EvmType>,
    key: Seq<char>,
    r: Result<EvmClient, EvmClientError>,
)
    requires
        private_key_parse(key) is Err,
        EvmClient::matches_wallet(r, wallet_failure(connect_failure, key), evm_type, key),
    ensures
        r is Err,
        connect_failure is None ==> r->Err_0.spec_message() == key_error_text(
            private_key_parse(key)->Err_0,
        ),
        connect_failure matches Some(text) ==> r->Err_0.spec_message() == text,
{
}

} // verus!
