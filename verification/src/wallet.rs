//! The signing credential of a client.

use crate::backend::{parse_private_key, private_key_parse};
use crate::error::{key_error_text, EvmClientError};
use vstd::prelude::*;

verus! {

/// The 32 bytes of a secp256k1 private key, most significant first. `parse`
/// yields only keys that the wallet parser accepted. The bytes lie in the
/// clear for as long as the value lives.
pub struct WalletKey {
    secret: [u8; 32],
}

impl View for WalletKey {
    type V = Seq<u8>;

    closed spec fn view(&self) -> Seq<u8> {
        self.secret@
    }
}

impl Clone for WalletKey {
    fn clone(&self) -> (copy: Self)
        ensures
            copy@ == self@,
    {
        WalletKey { secret: self.secret }
    }
}

impl WalletKey {
    /// A key is 32 bytes long.
    pub proof fn lemma_len(self)
        ensures
            self@.len() == 32,
    {
    }

    /// Turns the wallet parser's answer into a credential, or into the
    /// error that names the parser's complaint.
    pub fn from_parsed(parsed: Result<[u8; 32], String>) -> (r: Result<WalletKey, EvmClientError>)
        ensures
            match parsed {
                Ok(secret) => r matches Ok(key) && key@ == secret@,
                Err(cause) => r matches Err(e) && e.spec_message() == key_error_text(cause@),
            },
    {
        match parsed {
            Ok(secret) => Ok(WalletKey { secret }),
            Err(cause) => Err(
                EvmClientError::with_cause("Failed to parse private key: ", cause.as_str()),
            ),
        }
    }

    /// Parses a private key given as hexadecimal text.
    pub fn parse(private_key: &str) -> (r: Result<WalletKey, EvmClientError>)
        ensures
            match private_key_parse(private_key@) {
                Ok(secret) => r matches Ok(key) && key@ == secret,
                Err(cause) => r matches Err(e) && e.spec_message() == key_error_text(cause),
            },
    {
        Self::from_parsed(parse_private_key(private_key))
    }

    /// The 32 bytes of the key, most significant first.
    pub fn to_bytes(&self) -> (bytes: [u8; 32])
        ensures
            bytes@ == self@,
    {
        self.secret
    }
}

} // verus!
