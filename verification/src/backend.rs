//! The calls into the `ethers` crate. Verus takes the contracts in this file
//! on trust: each one says what the outside function's source shows of it.

use crate::client::Connection;
use ethers::providers::{Http, Provider};
use ethers::signers::LocalWallet;
use std::sync::Arc;
use vstd::prelude::*;

verus! {

/// `ethers::providers::Provider`, the JSON-RPC client over a transport `P`.
/// Opaque: a value is built by the crate and carried to the caller.
#[verifier::external_type_specification]
#[verifier::external_body]
#[verifier::reject_recursive_types(P)]
pub struct ExProvider<P>(Provider<P>);

/// `ethers::providers::Http`, the HTTP transport. Opaque.
#[verifier::external_type_specification]
#[verifier::external_body]
pub struct ExHttp(Http);

/// What `Provider::<Http>::try_from` makes of an address: `None` where it
/// builds a provider, else the `Debug` text of the `url::ParseError` that it
/// returns. It parses the address with `url::Url::parse` and looks at
/// nothing else, so the same address always gives the same answer.
pub uninterp spec fn url_rejection(url: Seq<char>) -> Option<Seq<char>>;

/// What `str::parse::<LocalWallet>` makes of a private key: the 32 bytes of
/// the signing key, most significant first, where it builds a wallet, else
/// the `Display` text of the `WalletError` that it returns. It decodes the
/// string as hexadecimal, asks for 32 bytes and for a scalar that the curve
/// takes as a signing key, and looks at nothing else.
pub uninterp spec fn private_key_parse(key: Seq<char>) -> Result<Seq<u8>, Seq<char>>;

/// Calls `Provider::<Http>::try_from` on `url`.
///
/// Trusted: the call succeeds or fails as `url_rejection` says of `url`, and
/// on failure the text returned is the error's `Debug` text. On success the
/// provider comes back labelled with the address it was built for, which is
/// `url`. No request is sent. The call builds a `reqwest::Client`, which
/// panics if a TLS backend cannot be initialized or the resolver cannot load
/// the system configuration; neither depends on `url`.
#[verifier::external_body]
pub(crate) fn try_provider(url: &str) -> (r: Result<Connection, String>)
    ensures
        match r {
            Ok(connection) => url_rejection(url@) is None && connection.address@ == url@,
            Err(cause) => url_rejection(url@) == Some(cause@),
        },
{
    match Provider::<Http>::try_from(url) {
        Ok(provider) => Ok(Connection { provider, address: Ghost(url@) }),
        Err(e) => Err(format!("{:?}", e)),
    }
}

/// Calls `Arc::clone`.
///
/// Trusted: the new handle points to the provider that `provider` points
/// to. No provider is built.
#[verifier::external_body]
pub(crate) fn share_provider(provider: &Arc<Provider<Http>>) -> (shared: Arc<Provider<Http>>)
    ensures
        shared == *provider,
{
    Arc::clone(provider)
}

/// Calls `str::parse::<LocalWallet>` on `key`.
///
/// Trusted: the result is what `private_key_parse` says of `key`: on
/// success the bytes of the wallet's signing key as
/// `SigningKey::to_bytes` gives them, on failure the error's `Display` text.
#[verifier::external_body]
pub(crate) fn parse_private_key(key: &str) -> (r: Result<[u8; 32], String>)
    ensures
        match r {
            Ok(secret) => private_key_parse(key@) == Ok::<Seq<u8>, Seq<char>>(secret@),
            Err(cause) => private_key_parse(key@) == Err::<Seq<u8>, Seq<char>>(cause@),
        },
{
    match key.parse::<LocalWallet>() {
        Ok(wallet) => Ok(wallet.signer().to_bytes().into()),
        Err(e) => Err(e.to_string()),
    }
}

} // verus!
