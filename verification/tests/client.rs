use evm_client::chain::EvmType;
use evm_client::client::EvmClient;
use evm_client::error::EvmClientError;
use evm_client::wallet::WalletKey;
use std::sync::Arc;

const KEY_ONE: &str = "0000000000000000000000000000000000000000000000000000000000000001";
const KEY_MIXED: &str = "4c0883a69102937d6231471b5dbb6204fe5129617082792ae468d01a3f362318";

fn error_text(r: Result<EvmClient, EvmClientError>) -> String {
    match r {
        Ok(_) => panic!("a client was built"),
        Err(EvmClientError::RpcError(msg)) => msg,
    }
}

fn client(r: Result<EvmClient, EvmClientError>) -> EvmClient {
    match r {
        Ok(client) => client,
        Err(e) => panic!("no client: {}", e.to_string()),
    }
}

#[test]
fn from_type_connects_to_the_first_endpoint_of_every_network() {
    let all = [
        EvmType::ETHEREUM_MAINNET,
        EvmType::ARB_MAINNET,
        EvmType::BSC_MAINNET,
        EvmType::BASE_MAINNET,
        EvmType::HYPEREVM_MAINNET,
        EvmType::PLASMA_MAINNET,
        EvmType::POLYGON_MAINNET,
        EvmType::OPTIMISM_MAINNET,
        EvmType::ZKSYNC_MAINNET,
        EvmType::STARKNET_MAINNET,
        EvmType::AVALANCHE_MAINNET,
        EvmType::FANTOM_MAINNET,
        EvmType::RONIN_MAINNET,
        EvmType::SKALE_MAINNET,
        EvmType::IMMUTABLE_MAINNET,
    ];
    for t in all.iter() {
        let c = client(EvmClient::from_type(*t));
        assert_eq!(c.evm_type, Some(*t));
        assert!(c.wallet.is_none());
        let first = t.rpc()[0];
        assert_eq!(c.provider.url().as_str().trim_end_matches('/'), first);
    }
}

#[test]
fn from_type_ethereum_uses_the_preferred_endpoint() {
    let c = client(EvmClient::from_type(EvmType::ETHEREUM_MAINNET));
    assert_eq!(c.provider.url().as_str(), "https://reth-ethereum.ithaca.xyz/rpc");
    assert_eq!(c.evm_type, Some(EvmType::ETHEREUM_MAINNET));
}

#[test]
fn from_rpc_builds_an_untagged_client() {
    let c = client(EvmClient::from_rpc("http://localhost:8545"));
    assert_eq!(c.provider.url().as_str(), "http://localhost:8545/");
    assert_eq!(c.evm_type, None);
    assert!(c.wallet.is_none());
}

#[test]
fn from_rpc_reports_the_parse_error() {
    assert_eq!(
        error_text(EvmClient::from_rpc("not a url")),
        "RPC Error: RelativeUrlWithoutBase"
    );
    assert_eq!(error_text(EvmClient::from_rpc("")), "RPC Error: RelativeUrlWithoutBase");
    assert_eq!(error_text(EvmClient::from_rpc("http://")), "RPC Error: EmptyHost");
    assert_eq!(
        error_text(EvmClient::from_rpc("http://localhost:99999")),
        "RPC Error: InvalidPort"
    );
}

#[test]
fn from_rpc_list_empty_list_fails() {
    let urls: Vec<&str> = Vec::new();
    assert_eq!(error_text(EvmClient::from_rpc_list(&urls, None)), "All RPC links are invalid");
    assert_eq!(
        error_text(EvmClient::from_rpc_list(&urls, Some(EvmType::BASE_MAINNET))),
        "All RPC links are invalid"
    );
}

#[test]
fn from_rpc_list_all_malformed_fails() {
    let urls = vec!["", "not a url", "http://", "//missing.scheme", "http://host:port"];
    assert_eq!(error_text(EvmClient::from_rpc_list(&urls, None)), "All RPC links are invalid");
}

#[test]
fn from_rpc_list_takes_the_first_accepted_address() {
    let urls = vec!["not a url", "http://", "https://a.example/rpc", "https://b.example/rpc"];
    let c = client(EvmClient::from_rpc_list(&urls, Some(EvmType::FANTOM_MAINNET)));
    assert_eq!(c.provider.url().as_str(), "https://a.example/rpc");
    assert_eq!(c.evm_type, Some(EvmType::FANTOM_MAINNET));
    assert!(c.wallet.is_none());

    let urls = vec!["https://b.example/rpc", "https://a.example/rpc"];
    let c = client(EvmClient::from_rpc_list(&urls, None));
    assert_eq!(c.provider.url().as_str(), "https://b.example/rpc");
    assert_eq!(c.evm_type, None);
}

#[test]
fn first_provider_reports_the_position_it_stopped_at() {
    let urls = vec!["not a url", "http://", "https://a.example/rpc", "https://b.example/rpc"];
    match EvmClient::first_provider(&urls) {
        Some((i, connection)) => {
            assert_eq!(i, 2);
            assert_eq!(connection.provider.url().as_str(), "https://a.example/rpc");
        }
        None => panic!("no address was accepted"),
    }
    let urls = vec!["https://only.example"];
    match EvmClient::first_provider(&urls) {
        Some((i, connection)) => {
            assert_eq!(i, 0);
            assert_eq!(connection.provider.url().as_str(), "https://only.example/");
        }
        None => panic!("no address was accepted"),
    }
    let urls = vec!["", "http://"];
    assert!(EvmClient::first_provider(&urls).is_none());
    let urls: Vec<&str> = Vec::new();
    assert!(EvmClient::first_provider(&urls).is_none());
}

#[test]
fn from_rpc_list_last_entry_is_reached() {
    let urls = vec!["", "", "", "https://last.example"];
    let c = client(EvmClient::from_rpc_list(&urls, None));
    assert_eq!(c.provider.url().as_str(), "https://last.example/");
}

#[test]
fn from_wallet_attaches_the_parsed_key() {
    let c = client(EvmClient::from_wallet(EvmType::POLYGON_MAINNET, KEY_ONE));
    assert_eq!(c.evm_type, Some(EvmType::POLYGON_MAINNET));
    assert_eq!(c.provider.url().as_str(), "https://polygon-rpc.com/");
    let mut expected = [0u8; 32];
    expected[31] = 1;
    match c.wallet {
        Some(key) => assert_eq!(key.to_bytes(), expected),
        None => panic!("no credential"),
    }
}

#[test]
fn from_rpc_and_wallet_attaches_the_parsed_key() {
    let c = client(EvmClient::from_rpc_and_wallet("http://localhost:8545", KEY_MIXED));
    assert_eq!(c.evm_type, None);
    assert_eq!(c.provider.url().as_str(), "http://localhost:8545/");
    let expected: [u8; 32] = [
        0x4c, 0x08, 0x83, 0xa6, 0x91, 0x02, 0x93, 0x7d, 0x62, 0x31, 0x47, 0x1b, 0x5d, 0xbb, 0x62,
        0x04, 0xfe, 0x51, 0x29, 0x61, 0x70, 0x82, 0x79, 0x2a, 0xe4, 0x68, 0xd0, 0x1a, 0x3f, 0x36,
        0x23, 0x18,
    ];
    match c.wallet {
        Some(key) => assert_eq!(key.to_bytes(), expected),
        None => panic!("no credential"),
    }
}

#[test]
fn the_held_key_rebuilds_the_wallet_that_was_parsed() {
    let c = client(EvmClient::from_rpc_and_wallet("http://localhost:8545", KEY_MIXED));
    let held = match c.wallet {
        Some(key) => key.to_bytes(),
        None => panic!("no credential"),
    };
    let rebuilt = match ethers::signers::LocalWallet::from_bytes(&held) {
        Ok(w) => w,
        Err(_) => panic!("the held key is no scalar"),
    };
    let parsed: ethers::signers::LocalWallet = match KEY_MIXED.parse() {
        Ok(w) => w,
        Err(_) => panic!("the key does not parse"),
    };
    assert!(rebuilt == parsed);
    assert_eq!(
        format!("{:?}", ethers::signers::Signer::address(&rebuilt)),
        "0x2c7536e3605d9c16a7a3d7b1898e529396a65c23"
    );
}

#[test]
fn invalid_private_key_fails_with_the_parse_error() {
    let url = "http://localhost:8545";
    assert_eq!(
        error_text(EvmClient::from_rpc_and_wallet(url, "xyz")),
        "Failed to parse private key: odd number of digits"
    );
    assert_eq!(
        error_text(EvmClient::from_rpc_and_wallet(url, "zz")),
        "Failed to parse private key: invalid character 'z' at position 0"
    );
    assert_eq!(
        error_text(EvmClient::from_rpc_and_wallet(url, "")),
        "Failed to parse private key: invalid string length"
    );
    assert_eq!(
        error_text(EvmClient::from_rpc_and_wallet(url, "abcd")),
        "Failed to parse private key: invalid string length"
    );
    assert_eq!(
        error_text(EvmClient::from_rpc_and_wallet(
            url,
            "0000000000000000000000000000000000000000000000000000000000000000"
        )),
        "Failed to parse private key: signature error"
    );
    assert_eq!(
        error_text(EvmClient::from_rpc_and_wallet(
            url,
            "ffffffffffffffffffffffffffffffffffffffffffffffffffffffffffffffff"
        )),
        "Failed to parse private key: signature error"
    );
    assert_eq!(
        error_text(EvmClient::from_wallet(EvmType::ETHEREUM_MAINNET, "not a key")),
        "Failed to parse private key: odd number of digits"
    );
    assert_eq!(
        error_text(EvmClient::from_wallet(EvmType::SKALE_MAINNET, "nokey!")),
        "Failed to parse private key: invalid character 'n' at position 0"
    );
}

#[test]
fn connection_failure_comes_before_the_key() {
    assert_eq!(
        error_text(EvmClient::from_rpc_and_wallet("not a url", "zz")),
        "RPC Error: RelativeUrlWithoutBase"
    );
    assert_eq!(
        error_text(EvmClient::from_rpc_and_wallet("not a url", KEY_ONE)),
        "RPC Error: RelativeUrlWithoutBase"
    );
}

#[test]
fn health_passes_a_good_reply_and_surfaces_a_failure() {
    let c = client(EvmClient::from_rpc("http://localhost:8545"));
    assert!(c.health(Ok(())).is_ok());
    match c.health(Err(String::from("connection refused"))) {
        Ok(()) => panic!("a failed request passed the health check"),
        Err(e) => {
            assert_eq!(e.message(), "Health check failed: connection refused");
            assert_eq!(e.to_string(), "RPC error: Health check failed: connection refused");
        }
    }
    match c.health(Err(String::new())) {
        Ok(()) => panic!("a failed request passed the health check"),
        Err(e) => assert_eq!(e.message(), "Health check failed: "),
    }
}

#[test]
fn clone_shares_the_provider() {
    let a = client(EvmClient::from_wallet(EvmType::BSC_MAINNET, KEY_ONE));
    let b = a.clone();
    assert!(Arc::ptr_eq(&a.provider, &b.provider));
    assert_eq!(Arc::strong_count(&a.provider), 2);
    assert_eq!(b.evm_type, Some(EvmType::BSC_MAINNET));
    match (a.wallet, b.wallet) {
        (Some(x), Some(y)) => assert_eq!(x.to_bytes(), y.to_bytes()),
        _ => panic!("the credential was lost"),
    }
    let plain = client(EvmClient::from_rpc("http://localhost:8545"));
    let copy = plain.clone();
    assert!(Arc::ptr_eq(&plain.provider, &copy.provider));
    assert!(copy.wallet.is_none());
    assert_eq!(copy.evm_type, None);
}

fn connection(url: &str) -> evm_client::client::Connection {
    let urls = vec![url];
    match EvmClient::first_provider(&urls) {
        Some((_, connection)) => connection,
        None => panic!("the address was refused"),
    }
}

#[test]
fn connected_and_with_wallet_keep_what_they_are_given() {
    let c = EvmClient::connected(
        connection("https://given.example/path"),
        Some(EvmType::ZKSYNC_MAINNET),
    );
    assert_eq!(c.provider.url().as_str(), "https://given.example/path");
    assert_eq!(c.evm_type, Some(EvmType::ZKSYNC_MAINNET));
    assert!(c.wallet.is_none());
    let key = match WalletKey::parse(KEY_ONE) {
        Ok(k) => k,
        Err(e) => panic!("{}", e.to_string()),
    };
    let c = c.with_wallet(key);
    assert_eq!(c.provider.url().as_str(), "https://given.example/path");
    assert_eq!(c.evm_type, Some(EvmType::ZKSYNC_MAINNET));
    match c.wallet {
        Some(k) => assert_eq!(k.to_bytes()[31], 1),
        None => panic!("no credential"),
    }
}

#[test]
fn from_connection_maps_both_outcomes() {
    let c = client(EvmClient::from_connection(Ok(connection("https://given.example"))));
    assert_eq!(c.provider.url().as_str(), "https://given.example/");
    assert_eq!(c.evm_type, None);
    assert!(c.wallet.is_none());
    assert_eq!(
        error_text(EvmClient::from_connection(Err(String::from("EmptyHost")))),
        "RPC Error: EmptyHost"
    );
}

#[test]
fn from_wallet_connects_to_the_first_endpoint_too() {
    let c = client(EvmClient::from_wallet(EvmType::BASE_MAINNET, KEY_ONE));
    assert_eq!(c.provider.url().as_str(), "https://mainnet.base.org/");
    assert_eq!(c.evm_type, Some(EvmType::BASE_MAINNET));
    assert!(c.wallet.is_some());
}
