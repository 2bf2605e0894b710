use evm_client::chain::EvmType;
use evm_client::client::EvmClient;

const ALL: [EvmType; 15] = [
    EvmType::ETHEREUM_MAINNET,
    EvmType::ARB_MAINNET,
    EvmType::BSC_MAINNET,
    EvmType::BASE_MAINNET,
    EvmType::HYPEREVM_MAINNET,
    EvmType::PLASMA_MAINNET,
    EvmType::POLYGON_MAINNET,
    EvmType::OPTIMISM_MAINNET,
    EvmType::ZKSYNC_MAINNET,
    EvmType::STARKNET_MAINNET,
    EvmType::AVALANCHE_MAINNET,
    EvmType::FANTOM_MAINNET,
    EvmType::RONIN_MAINNET,
    EvmType::SKALE_MAINNET,
    EvmType::IMMUTABLE_MAINNET,
];

#[test]
fn names_are_the_display_names() {
    assert_eq!(EvmType::ETHEREUM_MAINNET.name(), "Ethereum Mainnet");
    assert_eq!(EvmType::ARB_MAINNET.name(), "Arbitrum One");
    assert_eq!(EvmType::BSC_MAINNET.name(), "BNB Smart Chain");
    assert_eq!(EvmType::BASE_MAINNET.name(), "Base Mainnet");
    assert_eq!(EvmType::HYPEREVM_MAINNET.name(), "HyperEVM Mainnet");
    assert_eq!(EvmType::PLASMA_MAINNET.name(), "Plasma Mainnet");
    assert_eq!(EvmType::POLYGON_MAINNET.name(), "Polygon Mainnet");
    assert_eq!(EvmType::OPTIMISM_MAINNET.name(), "Optimism Mainnet");
    assert_eq!(EvmType::ZKSYNC_MAINNET.name(), "zkSync Era Mainnet");
    assert_eq!(EvmType::STARKNET_MAINNET.name(), "StarkNet Mainnet");
    assert_eq!(EvmType::AVALANCHE_MAINNET.name(), "Avalanche C-Chain");
    assert_eq!(EvmType::FANTOM_MAINNET.name(), "Fantom Opera");
    assert_eq!(EvmType::RONIN_MAINNET.name(), "Ronin Mainnet");
    assert_eq!(EvmType::SKALE_MAINNET.name(), "SKALE Mainnet");
    assert_eq!(EvmType::IMMUTABLE_MAINNET.name(), "Immutable zkEVM");
}

#[test]
fn chain_ids_are_the_registered_values() {
    assert_eq!(EvmType::ETHEREUM_MAINNET.chain_id(), 1);
    assert_eq!(EvmType::ARB_MAINNET.chain_id(), 42161);
    assert_eq!(EvmType::BSC_MAINNET.chain_id(), 56);
    assert_eq!(EvmType::BASE_MAINNET.chain_id(), 8453);
    assert_eq!(EvmType::HYPEREVM_MAINNET.chain_id(), 999);
    assert_eq!(EvmType::PLASMA_MAINNET.chain_id(), 9745);
    assert_eq!(EvmType::POLYGON_MAINNET.chain_id(), 137);
    assert_eq!(EvmType::OPTIMISM_MAINNET.chain_id(), 10);
    assert_eq!(EvmType::ZKSYNC_MAINNET.chain_id(), 324);
    assert_eq!(EvmType::STARKNET_MAINNET.chain_id(), 23448594291968334);
    assert_eq!(EvmType::AVALANCHE_MAINNET.chain_id(), 43114);
    assert_eq!(EvmType::FANTOM_MAINNET.chain_id(), 250);
    assert_eq!(EvmType::RONIN_MAINNET.chain_id(), 2020);
    assert_eq!(EvmType::SKALE_MAINNET.chain_id(), 1273227453);
    assert_eq!(EvmType::IMMUTABLE_MAINNET.chain_id(), 13371);
}

#[test]
fn chain_ids_are_pairwise_distinct() {
    for (i, a) in ALL.iter().enumerate() {
        for (j, b) in ALL.iter().enumerate() {
            assert_eq!(a.chain_id() == b.chain_id(), i == j);
            assert_eq!(a == b, i == j);
        }
    }
}

#[test]
fn names_are_pairwise_distinct() {
    for (i, a) in ALL.iter().enumerate() {
        for (j, b) in ALL.iter().enumerate() {
            assert_eq!(a.name() == b.name(), i == j);
        }
    }
}

#[test]
fn rpc_lists_have_the_registered_lengths() {
    let lengths: Vec<usize> = ALL.iter().map(|t| t.rpc().len()).collect();
    assert_eq!(lengths, vec![20, 16, 20, 15, 10, 11, 17, 14, 13, 11, 15, 14, 11, 11, 11]);
}

#[test]
fn rpc_lists_keep_priority_order() {
    let eth = EvmType::ETHEREUM_MAINNET.rpc();
    assert_eq!(eth[0], "https://reth-ethereum.ithaca.xyz/rpc");
    assert_eq!(eth[1], "https://cloudflare-eth.com");
    assert_eq!(eth[2], "https://rpc.ankr.com/eth");
    assert_eq!(
        eth[19],
        "https://eth-mainnet.rpcfast.com?api_key=xbhWBI1Wkguk8SNMu1bvvLurPGLXmgwYeC4S6g2H7WdwFigZSmPWVZRxrskEQwIf"
    );
    let arb = EvmType::ARB_MAINNET.rpc();
    assert_eq!(arb[0], "https://arb1.arbitrum.io/rpc");
    assert_eq!(arb[15], "https://arbitrum.getblock.io/api/mainnet");
    let ronin = EvmType::RONIN_MAINNET.rpc();
    assert_eq!(
        ronin,
        vec![
            "https://rpc.roninchain.com",
            "https://api.roninchain.com/rpc",
            "https://ronin-rpc.nodeinfra.com",
            "https://ronin.drpc.org",
            "https://ronin-mainnet.public.blastapi.io",
            "https://ronin.api.onfinality.io/public",
            "https://ronin.blockpi.network/v1/rpc/public",
            "https://ronin-pokt.nodies.app",
            "https://ronin.getblock.io/api/mainnet",
            "https://ronin-mainnet.core.chainstack.com",
            "https://ronin.rpc.subquery.network/public",
        ]
    );
    assert_eq!(EvmType::BSC_MAINNET.rpc()[0], "https://bsc-dataseed.binance.org");
    assert_eq!(EvmType::BASE_MAINNET.rpc()[0], "https://mainnet.base.org");
    assert_eq!(EvmType::HYPEREVM_MAINNET.rpc()[0], "https://hybrid-mainnet.evm.nodes.onflow.org");
    assert_eq!(EvmType::PLASMA_MAINNET.rpc()[0], "https://rpc.plasma.evm.onyx.org");
    assert_eq!(EvmType::POLYGON_MAINNET.rpc()[0], "https://polygon-rpc.com");
    assert_eq!(EvmType::OPTIMISM_MAINNET.rpc()[0], "https://optimism-rpc.publicnode.com");
    assert_eq!(EvmType::ZKSYNC_MAINNET.rpc()[0], "https://mainnet.era.zksync.io");
    assert_eq!(EvmType::STARKNET_MAINNET.rpc()[0], "https://starknet-mainnet.public.blastapi.io");
    assert_eq!(EvmType::AVALANCHE_MAINNET.rpc()[0], "https://avalanche-c-chain-rpc.publicnode.com");
    assert_eq!(EvmType::FANTOM_MAINNET.rpc()[0], "https://fantom-rpc.publicnode.com");
    assert_eq!(EvmType::SKALE_MAINNET.rpc()[0], "https://mainnet.skalenodes.com/v1/whispering-turais");
    assert_eq!(EvmType::IMMUTABLE_MAINNET.rpc()[0], "https://rpc.immutable.com");
    assert_eq!(
        EvmType::IMMUTABLE_MAINNET.rpc()[10],
        "https://immutable-mainnet.g.alchemy.com/v2/demo"
    );
}

#[test]
fn every_rpc_list_is_non_empty_and_made_of_https_addresses() {
    for t in ALL.iter() {
        let urls = t.rpc();
        assert!(!urls.is_empty());
        for url in urls.iter() {
            assert!(url.starts_with("https://"));
            let rest = &url["https://".len()..];
            let host_end = match rest.find(|c| c == '/' || c == '?' || c == '#') {
                Some(at) => at,
                None => rest.len(),
            };
            let host = &rest[..host_end];
            assert!(!host.is_empty());
            assert!(host.chars().all(|c| c.is_ascii_alphanumeric() || c == '-' || c == '.'));
            assert!(host.starts_with(|c: char| c.is_ascii_alphanumeric()));
            assert!(rest[host_end..].chars().all(|c| c.is_ascii_graphic()));
        }
    }
}

#[test]
fn every_registered_endpoint_is_accepted_by_the_provider() {
    for t in ALL.iter() {
        for url in t.rpc().iter() {
            let client = match EvmClient::from_rpc(url) {
                Ok(client) => client,
                Err(e) => panic!("{} was refused: {}", url, e.to_string()),
            };
            assert_eq!(client.provider.url().scheme(), "https");
            assert!(client.provider.url().host_str().is_some());
        }
    }
}

#[test]
fn no_endpoint_is_listed_twice_for_one_network() {
    for t in ALL.iter() {
        let urls = t.rpc();
        for (i, a) in urls.iter().enumerate() {
            for (j, b) in urls.iter().enumerate() {
                assert_eq!(a == b, i == j);
            }
        }
    }
}
