//! Laws of the chain registry.

use crate::chain::EvmType;
use crate::endpoint::{is_well_formed_url, splits_at};
use vstd::prelude::*;

verus! {

/// Whether every address of `urls` is well formed.
pub open spec fn all_well_formed(urls: Seq<Seq<char>>) -> bool {
    forall|i: int| 0 <= i < urls.len() ==> is_well_formed_url(#[trigger] urls[i])
}

proof fn lemma_ethereum_endpoints()
    ensures
        all_well_formed(EvmType::ETHEREUM_MAINNET.spec_rpc()),
{
    reveal_strlit("https://");
    reveal_strlit("https://reth-ethereum.ithaca.xyz/rpc");
    assert(splits_at("https://reth-ethereum.ithaca.xyz/rpc"@, 8, 32, 32));
    reveal_strlit("https://cloudflare-eth.com");
    assert(splits_at("https://cloudflare-eth.com"@, 8, 26, 26));
    reveal_strlit("https://rpc.ankr.com/eth");
    assert(splits_at("https://rpc.ankr.com/eth"@, 8, 20, 20));
    reveal_strlit("https://eth.llamarpc.com");
    assert(splits_at("https://eth.llamarpc.com"@, 8, 24, 24));
    reveal_strlit("https://1rpc.io/eth");
    assert(splits_at("https://1rpc.io/eth"@, 8, 15, 15));
    reveal_strlit("https://rpc.flashbots.net");
    assert(splits_at("https://rpc.flashbots.net"@, 8, 25, 25));
    reveal_strlit("https://ethereum.publicnode.com");
    assert(splits_at("https://ethereum.publicnode.com"@, 8, 31, 31));
    reveal_strlit("https://eth-rpc.gateway.pokt.network");
    assert(splits_at("https://eth-rpc.gateway.pokt.network"@, 8, 36, 36));
    reveal_strlit("https://api.mycryptoapi.com/eth");
    assert(splits_at("https://api.mycryptoapi.com/eth"@, 8, 27, 27));
    reveal_strlit("https://nodes.mewapi.io/rpc/eth");
    assert(splits_at("https://nodes.mewapi.io/rpc/eth"@, 8, 23, 23));
    reveal_strlit("https://mainnet-nethermind.blockscout.com");
    assert(splits_at("https://mainnet-nethermind.blockscout.com"@, 8, 41, 41));
    reveal_strlit("https://eth-pokt.nodies.app");
    assert(splits_at("https://eth-pokt.nodies.app"@, 8, 27, 27));
    reveal_strlit("https://eth.rpc.blxrbdn.com");
    assert(splits_at("https://eth.rpc.blxrbdn.com"@, 8, 27, 27));
    reveal_strlit("https://virginia.rpc.blxrbdn.com");
    assert(splits_at("https://virginia.rpc.blxrbdn.com"@, 8, 32, 32));
    reveal_strlit("https://uk.rpc.blxrbdn.com");
    assert(splits_at("https://uk.rpc.blxrbdn.com"@, 8, 26, 26));
    reveal_strlit("https://singapore.rpc.blxrbdn.com");
    assert(splits_at("https://singapore.rpc.blxrbdn.com"@, 8, 33, 33));
    reveal_strlit("https://eth-mainnet.public.blastapi.io");
    assert(splits_at("https://eth-mainnet.public.blastapi.io"@, 8, 38, 38));
    reveal_strlit("https://api.securerpc.com/v1");
    assert(splits_at("https://api.securerpc.com/v1"@, 8, 25, 25));
    reveal_strlit("https://eth-mainnet.gateway.pokt.network/v1/5f3453978e354ab992c4da79");
    assert(splits_at("https://eth-mainnet.gateway.pokt.network/v1/5f3453978e354ab992c4da79"@, 8, 40, 40));
    reveal_strlit("https://eth-mainnet.rpcfast.com?api_key=xbhWBI1Wkguk8SNMu1bvvLurPGLXmgwYeC4S6g2H7WdwFigZSmPWVZRxrskEQwIf");
    assert(splits_at("https://eth-mainnet.rpcfast.com?api_key=xbhWBI1Wkguk8SNMu1bvvLurPGLXmgwYeC4S6g2H7WdwFigZSmPWVZRxrskEQwIf"@, 8, 31, 31));
}

proof fn lemma_arbitrum_endpoints()
    ensures
        all_well_formed(EvmType::ARB_MAINNET.spec_rpc()),
{
    reveal_strlit("https://");
    reveal_strlit("https://arb1.arbitrum.io/rpc");
    assert(splits_at("https://arb1.arbitrum.io/rpc"@, 8, 24, 24));
    reveal_strlit("https://arbitrum-one.publicnode.com");
    assert(splits_at("https://arbitrum-one.publicnode.com"@, 8, 35, 35));
    reveal_strlit("https://1rpc.io/arb");
    assert(splits_at("https://1rpc.io/arb"@, 8, 15, 15));
    reveal_strlit("https://arbitrum.rpc.subquery.network/public");
    assert(splits_at("https://arbitrum.rpc.subquery.network/public"@, 8, 37, 37));
    reveal_strlit("https://arbitrum.blockpi.network/v1/rpc/public");
    assert(splits_at("https://arbitrum.blockpi.network/v1/rpc/public"@, 8, 32, 32));
    reveal_strlit("https://arbitrum.meowrpc.com");
    assert(splits_at("https://arbitrum.meowrpc.com"@, 8, 28, 28));
    reveal_strlit("https://arbitrum.api.onfinality.io/public");
    assert(splits_at("https://arbitrum.api.onfinality.io/public"@, 8, 34, 34));
    reveal_strlit("https://endpoints.omniatech.io/v1/arbitrum/one/public");
    assert(splits_at("https://endpoints.omniatech.io/v1/arbitrum/one/public"@, 8, 30, 30));
    reveal_strlit("https://arbitrum.drpc.org");
    assert(splits_at("https://arbitrum.drpc.org"@, 8, 25, 25));
    reveal_strlit("https://arb-pokt.nodies.app");
    assert(splits_at("https://arb-pokt.nodies.app"@, 8, 27, 27));
    reveal_strlit("https://arbitrum-rpc.publicnode.com");
    assert(splits_at("https://arbitrum-rpc.publicnode.com"@, 8, 35, 35));
    reveal_strlit("https://rpc.arb1.arbitrum.gateway.fm");
    assert(splits_at("https://rpc.arb1.arbitrum.gateway.fm"@, 8, 36, 36));
    reveal_strlit("https://arbitrum-one-rpc.publicnode.com");
    assert(splits_at("https://arbitrum-one-rpc.publicnode.com"@, 8, 39, 39));
    reveal_strlit("https://arb-mainnet.g.alchemy.com/v2/demo");
    assert(splits_at("https://arb-mainnet.g.alchemy.com/v2/demo"@, 8, 33, 33));
    reveal_strlit("https://arbitrum-mainnet.infura.io/v3/9aa3d95b3bc440fa88ea12eaa4456161");
    assert(splits_at("https://arbitrum-mainnet.infura.io/v3/9aa3d95b3bc440fa88ea12eaa4456161"@, 8, 34, 34));
    reveal_strlit("https://arbitrum.getblock.io/api/mainnet");
    assert(splits_at("https://arbitrum.getblock.io/api/mainnet"@, 8, 28, 28));
}

proof fn lemma_bsc_endpoints()
    ensures
        all_well_formed(EvmType::BSC_MAINNET.spec_rpc()),
{
    reveal_strlit("https://");
    reveal_strlit("https://bsc-dataseed.binance.org");
    assert(splits_at("https://bsc-dataseed.binance.org"@, 8, 32, 32));
    reveal_strlit("https://bsc-dataseed1.binance.org");
    assert(splits_at("https://bsc-dataseed1.binance.org"@, 8, 33, 33));
    reveal_strlit("https://bsc-dataseed2.binance.org");
    assert(splits_at("https://bsc-dataseed2.binance.org"@, 8, 33, 33));
    reveal_strlit("https://bsc-dataseed3.binance.org");
    assert(splits_at("https://bsc-dataseed3.binance.org"@, 8, 33, 33));
    reveal_strlit("https://bsc-dataseed4.binance.org");
    assert(splits_at("https://bsc-dataseed4.binance.org"@, 8, 33, 33));
    reveal_strlit("https://bsc-dataseed1.defibit.io");
    assert(splits_at("https://bsc-dataseed1.defibit.io"@, 8, 32, 32));
    reveal_strlit("https://bsc-dataseed2.defibit.io");
    assert(splits_at("https://bsc-dataseed2.defibit.io"@, 8, 32, 32));
    reveal_strlit("https://bsc-dataseed3.defibit.io");
    assert(splits_at("https://bsc-dataseed3.defibit.io"@, 8, 32, 32));
    reveal_strlit("https://bsc-dataseed1.ninicoin.io");
    assert(splits_at("https://bsc-dataseed1.ninicoin.io"@, 8, 33, 33));
    reveal_strlit("https://bsc-dataseed2.ninicoin.io");
    assert(splits_at("https://bsc-dataseed2.ninicoin.io"@, 8, 33, 33));
    reveal_strlit("https://bsc-dataseed3.ninicoin.io");
    assert(splits_at("https://bsc-dataseed3.ninicoin.io"@, 8, 33, 33));
    reveal_strlit("https://bsc-rpc.publicnode.com");
    assert(splits_at("https://bsc-rpc.publicnode.com"@, 8, 30, 30));
    reveal_strlit("https://bsc.publicnode.com");
    assert(splits_at("https://bsc.publicnode.com"@, 8, 26, 26));
    reveal_strlit("https://1rpc.io/bnb");
    assert(splits_at("https://1rpc.io/bnb"@, 8, 15, 15));
    reveal_strlit("https://bsc.meowrpc.com");
    assert(splits_at("https://bsc.meowrpc.com"@, 8, 23, 23));
    reveal_strlit("https://bsc.blockpi.network/v1/rpc/public");
    assert(splits_at("https://bsc.blockpi.network/v1/rpc/public"@, 8, 27, 27));
    reveal_strlit("https://bsc-mainnet.nodereal.io/v1/64a9df0874fb4a93b9d0a3849de012d3");
    assert(splits_at("https://bsc-mainnet.nodereal.io/v1/64a9df0874fb4a93b9d0a3849de012d3"@, 8, 31, 31));
    reveal_strlit("https://bsc-mainnet.rpcfast.com?api_key=xbhWBI1Wkguk8SNMu1bvvLurPGLXmgwYeC4S6g2H7WdwFigZSmPWVZRxrskEQwIf");
    assert(splits_at("https://bsc-mainnet.rpcfast.com?api_key=xbhWBI1Wkguk8SNMu1bvvLurPGLXmgwYeC4S6g2H7WdwFigZSmPWVZRxrskEQwIf"@, 8, 31, 31));
    reveal_strlit("https://binance.llamarpc.com");
    assert(splits_at("https://binance.llamarpc.com"@, 8, 28, 28));
    reveal_strlit("https://bsc-dataseed.binance.gg");
    assert(splits_at("https://bsc-dataseed.binance.gg"@, 8, 31, 31));
}

proof fn lemma_base_endpoints()
    ensures
        all_well_formed(EvmType::BASE_MAINNET.spec_rpc()),
{
    reveal_strlit("https://");
    reveal_strlit("https://mainnet.base.org");
    assert(splits_at("https://mainnet.base.org"@, 8, 24, 24));
    reveal_strlit("https://base-rpc.publicnode.com");
    assert(splits_at("https://base-rpc.publicnode.com"@, 8, 31, 31));
    reveal_strlit("https://base.gateway.tenderly.co");
    assert(splits_at("https://base.gateway.tenderly.co"@, 8, 32, 32));
    reveal_strlit("https://1rpc.io/base");
    assert(splits_at("https://1rpc.io/base"@, 8, 15, 15));
    reveal_strlit("https://base-pokt.nodies.app");
    assert(splits_at("https://base-pokt.nodies.app"@, 8, 28, 28));
    reveal_strlit("https://base.meowrpc.com");
    assert(splits_at("https://base.meowrpc.com"@, 8, 24, 24));
    reveal_strlit("https://base.api.onfinality.io/public");
    assert(splits_at("https://base.api.onfinality.io/public"@, 8, 30, 30));
    reveal_strlit("https://base.blockpi.network/v1/rpc/public");
    assert(splits_at("https://base.blockpi.network/v1/rpc/public"@, 8, 28, 28));
    reveal_strlit("https://developer-access-mainnet.base.org");
    assert(splits_at("https://developer-access-mainnet.base.org"@, 8, 41, 41));
    reveal_strlit("https://base.llamarpc.com");
    assert(splits_at("https://base.llamarpc.com"@, 8, 25, 25));
    reveal_strlit("https://base-mainnet.public.blastapi.io");
    assert(splits_at("https://base-mainnet.public.blastapi.io"@, 8, 39, 39));
    reveal_strlit("https://base.drpc.org");
    assert(splits_at("https://base.drpc.org"@, 8, 21, 21));
    reveal_strlit("https://base-mainnet.core.chainstack.com");
    assert(splits_at("https://base-mainnet.core.chainstack.com"@, 8, 40, 40));
    reveal_strlit("https://base-mainnet.gateway.pokt.network/v1/5f3453978e354ab992c4da79");
    assert(splits_at("https://base-mainnet.gateway.pokt.network/v1/5f3453978e354ab992c4da79"@, 8, 41, 41));
    reveal_strlit("https://base.getblock.io/api/mainnet");
    assert(splits_at("https://base.getblock.io/api/mainnet"@, 8, 24, 24));
}

proof fn lemma_hyperevm_endpoints()
    ensures
        all_well_formed(EvmType::HYPEREVM_MAINNET.spec_rpc()),
{
    reveal_strlit("https://");
    reveal_strlit("https://hybrid-mainnet.evm.nodes.onflow.org");
    assert(splits_at("https://hybrid-mainnet.evm.nodes.onflow.org"@, 8, 43, 43));
    reveal_strlit("https://mainnet.evm.nodes.onflow.org");
    assert(splits_at("https://mainnet.evm.nodes.onflow.org"@, 8, 36, 36));
    reveal_strlit("https://evm-rpc.mainnet.hyperchain.xyz");
    assert(splits_at("https://evm-rpc.mainnet.hyperchain.xyz"@, 8, 38, 38));
    reveal_strlit("https://hyperchain.alt.technology");
    assert(splits_at("https://hyperchain.alt.technology"@, 8, 33, 33));
    reveal_strlit("https://rpc.hybrid.mainnet.hyperchain.xyz");
    assert(splits_at("https://rpc.hybrid.mainnet.hyperchain.xyz"@, 8, 41, 41));
    reveal_strlit("https://hyper-evm.rpc.subquery.network/public");
    assert(splits_at("https://hyper-evm.rpc.subquery.network/public"@, 8, 38, 38));
    reveal_strlit("https://hyper-evm.publicnode.com");
    assert(splits_at("https://hyper-evm.publicnode.com"@, 8, 32, 32));
    reveal_strlit("https://hyper-evm.blockpi.network/v1/rpc/public");
    assert(splits_at("https://hyper-evm.blockpi.network/v1/rpc/public"@, 8, 33, 33));
    reveal_strlit("https://hyper-evm.drpc.org");
    assert(splits_at("https://hyper-evm.drpc.org"@, 8, 26, 26));
    reveal_strlit("https://flow-hybrid-mainnet.g.alchemy.com/v2/demo");
    assert(splits_at("https://flow-hybrid-mainnet.g.alchemy.com/v2/demo"@, 8, 41, 41));
}

proof fn lemma_plasma_endpoints()
    ensures
        all_well_formed(EvmType::PLASMA_MAINNET.spec_rpc()),
{
    reveal_strlit("https://");
    reveal_strlit("https://rpc.plasma.evm.onyx.org");
    assert(splits_at("https://rpc.plasma.evm.onyx.org"@, 8, 31, 31));
    reveal_strlit("https://plasma-rpc.daoswap.cc");
    assert(splits_at("https://plasma-rpc.daoswap.cc"@, 8, 29, 29));
    reveal_strlit("https://plasma.daoswap.cc");
    assert(splits_at("https://plasma.daoswap.cc"@, 8, 25, 25));
    reveal_strlit("https://plasma-evm.rpc.subquery.network/public");
    assert(splits_at("https://plasma-evm.rpc.subquery.network/public"@, 8, 39, 39));
    reveal_strlit("https://plasma-evm.blockpi.network/v1/rpc/public");
    assert(splits_at("https://plasma-evm.blockpi.network/v1/rpc/public"@, 8, 34, 34));
    reveal_strlit("https://plasma-evm.publicnode.com");
    assert(splits_at("https://plasma-evm.publicnode.com"@, 8, 33, 33));
    reveal_strlit("https://rpc.plasma.quarkchain.io");
    assert(splits_at("https://rpc.plasma.quarkchain.io"@, 8, 32, 32));
    reveal_strlit("https://plasma-mainnet.rpc.thirdweb.com");
    assert(splits_at("https://plasma-mainnet.rpc.thirdweb.com"@, 8, 39, 39));
    reveal_strlit("https://plasma.drpc.org");
    assert(splits_at("https://plasma.drpc.org"@, 8, 23, 23));
    reveal_strlit("https://plasma-rpc.nodeinfra.com");
    assert(splits_at("https://plasma-rpc.nodeinfra.com"@, 8, 32, 32));
    reveal_strlit("https://plasma-mainnet.core.chainstack.com");
    assert(splits_at("https://plasma-mainnet.core.chainstack.com"@, 8, 42, 42));
}

proof fn lemma_polygon_endpoints()
    ensures
        all_well_formed(EvmType::POLYGON_MAINNET.spec_rpc()),
{
    reveal_strlit("https://");
    reveal_strlit("https://polygon-rpc.com");
    assert(splits_at("https://polygon-rpc.com"@, 8, 23, 23));
    reveal_strlit("https://polygon-bor.publicnode.com");
    assert(splits_at("https://polygon-bor.publicnode.com"@, 8, 34, 34));
    reveal_strlit("https://rpc.ankr.com/polygon");
    assert(splits_at("https://rpc.ankr.com/polygon"@, 8, 20, 20));
    reveal_strlit("https://1rpc.io/matic");
    assert(splits_at("https://1rpc.io/matic"@, 8, 15, 15));
    reveal_strlit("https://polygon.blockpi.network/v1/rpc/public");
    assert(splits_at("https://polygon.blockpi.network/v1/rpc/public"@, 8, 31, 31));
    reveal_strlit("https://polygon.meowrpc.com");
    assert(splits_at("https://polygon.meowrpc.com"@, 8, 27, 27));
    reveal_strlit("https://rpc-mainnet.matic.network");
    assert(splits_at("https://rpc-mainnet.matic.network"@, 8, 33, 33));
    reveal_strlit("https://rpc-mainnet.maticvigil.com");
    assert(splits_at("https://rpc-mainnet.maticvigil.com"@, 8, 34, 34));
    reveal_strlit("https://rpc-mainnet.matic.quiknode.pro");
    assert(splits_at("https://rpc-mainnet.matic.quiknode.pro"@, 8, 38, 38));
    reveal_strlit("https://matic-mainnet-full-rpc.bwarelabs.com");
    assert(splits_at("https://matic-mainnet-full-rpc.bwarelabs.com"@, 8, 44, 44));
    reveal_strlit("https://matic-mainnet-archive-rpc.bwarelabs.com");
    assert(splits_at("https://matic-mainnet-archive-rpc.bwarelabs.com"@, 8, 47, 47));
    reveal_strlit("https://polygon-mainnet.public.blastapi.io");
    assert(splits_at("https://polygon-mainnet.public.blastapi.io"@, 8, 42, 42));
    reveal_strlit("https://polygon.drpc.org");
    assert(splits_at("https://polygon.drpc.org"@, 8, 24, 24));
    reveal_strlit("https://polygon-pokt.nodies.app");
    assert(splits_at("https://polygon-pokt.nodies.app"@, 8, 31, 31));
    reveal_strlit("https://polygon-mainnet.g.alchemy.com/v2/demo");
    assert(splits_at("https://polygon-mainnet.g.alchemy.com/v2/demo"@, 8, 37, 37));
    reveal_strlit("https://polygon-mainnet.infura.io/v3/9aa3d95b3bc440fa88ea12eaa4456161");
    assert(splits_at("https://polygon-mainnet.infura.io/v3/9aa3d95b3bc440fa88ea12eaa4456161"@, 8, 33, 33));
    reveal_strlit("https://polygon.api.onfinality.io/public");
    assert(splits_at("https://polygon.api.onfinality.io/public"@, 8, 33, 33));
}

proof fn lemma_optimism_endpoints()
    ensures
        all_well_formed(EvmType::OPTIMISM_MAINNET.spec_rpc()),
{
    reveal_strlit("https://");
    reveal_strlit("https://optimism-rpc.publicnode.com");
    assert(splits_at("https://optimism-rpc.publicnode.com"@, 8, 35, 35));
    reveal_strlit("https://rpc.ankr.com/optimism");
    assert(splits_at("https://rpc.ankr.com/optimism"@, 8, 20, 20));
    reveal_strlit("https://1rpc.io/op");
    assert(splits_at("https://1rpc.io/op"@, 8, 15, 15));
    reveal_strlit("https://optimism.blockpi.network/v1/rpc/public");
    assert(splits_at("https://optimism.blockpi.network/v1/rpc/public"@, 8, 32, 32));
    reveal_strlit("https://mainnet.optimism.io");
    assert(splits_at("https://mainnet.optimism.io"@, 8, 27, 27));
    reveal_strlit("https://optimism.meowrpc.com");
    assert(splits_at("https://optimism.meowrpc.com"@, 8, 28, 28));
    reveal_strlit("https://opt-mainnet.g.alchemy.com/v2/demo");
    assert(splits_at("https://opt-mainnet.g.alchemy.com/v2/demo"@, 8, 33, 33));
    reveal_strlit("https://optimism-mainnet.infura.io/v3/9aa3d95b3bc440fa88ea12eaa4456161");
    assert(splits_at("https://optimism-mainnet.infura.io/v3/9aa3d95b3bc440fa88ea12eaa4456161"@, 8, 34, 34));
    reveal_strlit("https://optimism.api.onfinality.io/public");
    assert(splits_at("https://optimism.api.onfinality.io/public"@, 8, 34, 34));
    reveal_strlit("https://optimism.drpc.org");
    assert(splits_at("https://optimism.drpc.org"@, 8, 25, 25));
    reveal_strlit("https://optimism-pokt.nodies.app");
    assert(splits_at("https://optimism-pokt.nodies.app"@, 8, 32, 32));
    reveal_strlit("https://optimism-mainnet.public.blastapi.io");
    assert(splits_at("https://optimism-mainnet.public.blastapi.io"@, 8, 43, 43));
    reveal_strlit("https://endpoints.omniatech.io/v1/op/mainnet/public");
    assert(splits_at("https://endpoints.omniatech.io/v1/op/mainnet/public"@, 8, 30, 30));
    reveal_strlit("https://optimism.getblock.io/api/mainnet");
    assert(splits_at("https://optimism.getblock.io/api/mainnet"@, 8, 28, 28));
}

proof fn lemma_zksync_endpoints()
    ensures
        all_well_formed(EvmType::ZKSYNC_MAINNET.spec_rpc()),
{
    reveal_strlit("https://");
    reveal_strlit("https://mainnet.era.zksync.io");
    assert(splits_at("https://mainnet.era.zksync.io"@, 8, 29, 29));
    reveal_strlit("https://zksync-rpc.com");
    assert(splits_at("https://zksync-rpc.com"@, 8, 22, 22));
    reveal_strlit("https://1rpc.io/zksync");
    assert(splits_at("https://1rpc.io/zksync"@, 8, 15, 15));
    reveal_strlit("https://zksync.drpc.org");
    assert(splits_at("https://zksync.drpc.org"@, 8, 23, 23));
    reveal_strlit("https://zksync.meowrpc.com");
    assert(splits_at("https://zksync.meowrpc.com"@, 8, 26, 26));
    reveal_strlit("https://zksync-era.blockpi.network/v1/rpc/public");
    assert(splits_at("https://zksync-era.blockpi.network/v1/rpc/public"@, 8, 34, 34));
    reveal_strlit("https://zksync-mainnet.public.blastapi.io");
    assert(splits_at("https://zksync-mainnet.public.blastapi.io"@, 8, 41, 41));
    reveal_strlit("https://zksync.rpc.subquery.network/public");
    assert(splits_at("https://zksync.rpc.subquery.network/public"@, 8, 35, 35));
    reveal_strlit("https://zksync-pokt.nodies.app");
    assert(splits_at("https://zksync-pokt.nodies.app"@, 8, 30, 30));
    reveal_strlit("https://zksync.getblock.io/api/mainnet");
    assert(splits_at("https://zksync.getblock.io/api/mainnet"@, 8, 26, 26));
    reveal_strlit("https://zksync-era.core.chainstack.com");
    assert(splits_at("https://zksync-era.core.chainstack.com"@, 8, 38, 38));
    reveal_strlit("https://zksync-era.rpc.thirdweb.com");
    assert(splits_at("https://zksync-era.rpc.thirdweb.com"@, 8, 35, 35));
    reveal_strlit("https://zksync-era-mainnet.public.immudb.io");
    assert(splits_at("https://zksync-era-mainnet.public.immudb.io"@, 8, 43, 43));
}

proof fn lemma_starknet_endpoints()
    ensures
        all_well_formed(EvmType::STARKNET_MAINNET.spec_rpc()),
{
    reveal_strlit("https://");
    reveal_strlit("https://starknet-mainnet.public.blastapi.io");
    assert(splits_at("https://starknet-mainnet.public.blastapi.io"@, 8, 43, 43));
    reveal_strlit("https://free-rpc.nethermind.io/mainnet");
    assert(splits_at("https://free-rpc.nethermind.io/mainnet"@, 8, 30, 30));
    reveal_strlit("https://rpc.starknet.lava.build");
    assert(splits_at("https://rpc.starknet.lava.build"@, 8, 31, 31));
    reveal_strlit("https://starknet-mainnet.public.chainstack.com");
    assert(splits_at("https://starknet-mainnet.public.chainstack.com"@, 8, 46, 46));
    reveal_strlit("https://starknet-mainnet.g.alchemy.com/v2/demo");
    assert(splits_at("https://starknet-mainnet.g.alchemy.com/v2/demo"@, 8, 38, 38));
    reveal_strlit("https://starknet-mainnet.infura.io/v3/9aa3d95b3bc440fa88ea12eaa4456161");
    assert(splits_at("https://starknet-mainnet.infura.io/v3/9aa3d95b3bc440fa88ea12eaa4456161"@, 8, 34, 34));
    reveal_strlit("https://starknet.api.onfinality.io/public");
    assert(splits_at("https://starknet.api.onfinality.io/public"@, 8, 34, 34));
    reveal_strlit("https://starknet.drpc.org");
    assert(splits_at("https://starknet.drpc.org"@, 8, 25, 25));
    reveal_strlit("https://starknet-mainnet.core.chainstack.com");
    assert(splits_at("https://starknet-mainnet.core.chainstack.com"@, 8, 44, 44));
    reveal_strlit("https://starknet.rpc.subquery.network/public");
    assert(splits_at("https://starknet.rpc.subquery.network/public"@, 8, 37, 37));
    reveal_strlit("https://starknet-mainnet.public.immudb.io");
    assert(splits_at("https://starknet-mainnet.public.immudb.io"@, 8, 41, 41));
}

proof fn lemma_avalanche_endpoints()
    ensures
        all_well_formed(EvmType::AVALANCHE_MAINNET.spec_rpc()),
{
    reveal_strlit("https://");
    reveal_strlit("https://avalanche-c-chain-rpc.publicnode.com");
    assert(splits_at("https://avalanche-c-chain-rpc.publicnode.com"@, 8, 44, 44));
    reveal_strlit("https://rpc.ankr.com/avalanche");
    assert(splits_at("https://rpc.ankr.com/avalanche"@, 8, 20, 20));
    reveal_strlit("https://1rpc.io/avax");
    assert(splits_at("https://1rpc.io/avax"@, 8, 15, 15));
    reveal_strlit("https://avax.meowrpc.com");
    assert(splits_at("https://avax.meowrpc.com"@, 8, 24, 24));
    reveal_strlit("https://api.avax.network/ext/bc/C/rpc");
    assert(splits_at("https://api.avax.network/ext/bc/C/rpc"@, 8, 24, 24));
    reveal_strlit("https://avalanche-mainnet.infura.io/v3/9aa3d95b3bc440fa88ea12eaa4456161");
    assert(splits_at("https://avalanche-mainnet.infura.io/v3/9aa3d95b3bc440fa88ea12eaa4456161"@, 8, 35, 35));
    reveal_strlit("https://avax-pokt.nodies.app");
    assert(splits_at("https://avax-pokt.nodies.app"@, 8, 28, 28));
    reveal_strlit("https://avalanche.drpc.org");
    assert(splits_at("https://avalanche.drpc.org"@, 8, 26, 26));
    reveal_strlit("https://avalanche-mainnet.public.blastapi.io");
    assert(splits_at("https://avalanche-mainnet.public.blastapi.io"@, 8, 44, 44));
    reveal_strlit("https://avalanche.api.onfinality.io/public");
    assert(splits_at("https://avalanche.api.onfinality.io/public"@, 8, 35, 35));
    reveal_strlit("https://avalanche-c-chain-rpc.gateway.pokt.network");
    assert(splits_at("https://avalanche-c-chain-rpc.gateway.pokt.network"@, 8, 50, 50));
    reveal_strlit("https://avax.getblock.io/api/mainnet");
    assert(splits_at("https://avax.getblock.io/api/mainnet"@, 8, 24, 24));
    reveal_strlit("https://avalanche-mainnet.core.chainstack.com");
    assert(splits_at("https://avalanche-mainnet.core.chainstack.com"@, 8, 45, 45));
    reveal_strlit("https://avalanche.rpc.subquery.network/public");
    assert(splits_at("https://avalanche.rpc.subquery.network/public"@, 8, 38, 38));
    reveal_strlit("https://avalanche-mainnet.gateway.pokt.network/v1/5f3453978e354ab992c4da79");
    assert(splits_at("https://avalanche-mainnet.gateway.pokt.network/v1/5f3453978e354ab992c4da79"@, 8, 46, 46));
}

proof fn lemma_fantom_endpoints()
    ensures
        all_well_formed(EvmType::FANTOM_MAINNET.spec_rpc()),
{
    reveal_strlit("https://");
    reveal_strlit("https://fantom-rpc.publicnode.com");
    assert(splits_at("https://fantom-rpc.publicnode.com"@, 8, 33, 33));
    reveal_strlit("https://rpc.ankr.com/fantom");
    assert(splits_at("https://rpc.ankr.com/fantom"@, 8, 20, 20));
    reveal_strlit("https://1rpc.io/ftm");
    assert(splits_at("https://1rpc.io/ftm"@, 8, 15, 15));
    reveal_strlit("https://fantom.blockpi.network/v1/rpc/public");
    assert(splits_at("https://fantom.blockpi.network/v1/rpc/public"@, 8, 30, 30));
    reveal_strlit("https://rpc.fantom.network");
    assert(splits_at("https://rpc.fantom.network"@, 8, 26, 26));
    reveal_strlit("https://fantom.publicnode.com");
    assert(splits_at("https://fantom.publicnode.com"@, 8, 29, 29));
    reveal_strlit("https://fantom-mainnet.gateway.pokt.network/v1/5f3453978e354ab992c4da79");
    assert(splits_at("https://fantom-mainnet.gateway.pokt.network/v1/5f3453978e354ab992c4da79"@, 8, 43, 43));
    reveal_strlit("https://fantom.drpc.org");
    assert(splits_at("https://fantom.drpc.org"@, 8, 23, 23));
    reveal_strlit("https://fantom-mainnet.public.blastapi.io");
    assert(splits_at("https://fantom-mainnet.public.blastapi.io"@, 8, 41, 41));
    reveal_strlit("https://fantom.api.onfinality.io/public");
    assert(splits_at("https://fantom.api.onfinality.io/public"@, 8, 32, 32));
    reveal_strlit("https://fantom.getblock.io/api/mainnet");
    assert(splits_at("https://fantom.getblock.io/api/mainnet"@, 8, 26, 26));
    reveal_strlit("https://fantom-mainnet.core.chainstack.com");
    assert(splits_at("https://fantom-mainnet.core.chainstack.com"@, 8, 42, 42));
    reveal_strlit("https://fantom.rpc.subquery.network/public");
    assert(splits_at("https://fantom.rpc.subquery.network/public"@, 8, 35, 35));
    reveal_strlit("https://fantom-mainnet.g.alchemy.com/v2/demo");
    assert(splits_at("https://fantom-mainnet.g.alchemy.com/v2/demo"@, 8, 36, 36));
}

proof fn lemma_ronin_endpoints()
    ensures
        all_well_formed(EvmType::RONIN_MAINNET.spec_rpc()),
{
    reveal_strlit("https://");
    reveal_strlit("https://rpc.roninchain.com");
    assert(splits_at("https://rpc.roninchain.com"@, 8, 26, 26));
    reveal_strlit("https://api.roninchain.com/rpc");
    assert(splits_at("https://api.roninchain.com/rpc"@, 8, 26, 26));
    reveal_strlit("https://ronin-rpc.nodeinfra.com");
    assert(splits_at("https://ronin-rpc.nodeinfra.com"@, 8, 31, 31));
    reveal_strlit("https://ronin.drpc.org");
    assert(splits_at("https://ronin.drpc.org"@, 8, 22, 22));
    reveal_strlit("https://ronin-mainnet.public.blastapi.io");
    assert(splits_at("https://ronin-mainnet.public.blastapi.io"@, 8, 40, 40));
    reveal_strlit("https://ronin.api.onfinality.io/public");
    assert(splits_at("https://ronin.api.onfinality.io/public"@, 8, 31, 31));
    reveal_strlit("https://ronin.blockpi.network/v1/rpc/public");
    assert(splits_at("https://ronin.blockpi.network/v1/rpc/public"@, 8, 29, 29));
    reveal_strlit("https://ronin-pokt.nodies.app");
    assert(splits_at("https://ronin-pokt.nodies.app"@, 8, 29, 29));
    reveal_strlit("https://ronin.getblock.io/api/mainnet");
    assert(splits_at("https://ronin.getblock.io/api/mainnet"@, 8, 25, 25));
    reveal_strlit("https://ronin-mainnet.core.chainstack.com");
    assert(splits_at("https://ronin-mainnet.core.chainstack.com"@, 8, 41, 41));
    reveal_strlit("https://ronin.rpc.subquery.network/public");
    assert(splits_at("https://ronin.rpc.subquery.network/public"@, 8, 34, 34));
}

proof fn lemma_skale_endpoints()
    ensures
        all_well_formed(EvmType::SKALE_MAINNET.spec_rpc()),
{
    reveal_strlit("https://");
    reveal_strlit("https://mainnet.skalenodes.com/v1/whispering-turais");
    assert(splits_at("https://mainnet.skalenodes.com/v1/whispering-turais"@, 8, 30, 30));
    reveal_strlit("https://rpc.skale.space");
    assert(splits_at("https://rpc.skale.space"@, 8, 23, 23));
    reveal_strlit("https://skale-rpc.nodeinfra.com");
    assert(splits_at("https://skale-rpc.nodeinfra.com"@, 8, 31, 31));
    reveal_strlit("https://skale.drpc.org");
    assert(splits_at("https://skale.drpc.org"@, 8, 22, 22));
    reveal_strlit("https://skale-mainnet.public.blastapi.io");
    assert(splits_at("https://skale-mainnet.public.blastapi.io"@, 8, 40, 40));
    reveal_strlit("https://skale.api.onfinality.io/public");
    assert(splits_at("https://skale.api.onfinality.io/public"@, 8, 31, 31));
    reveal_strlit("https://skale.blockpi.network/v1/rpc/public");
    assert(splits_at("https://skale.blockpi.network/v1/rpc/public"@, 8, 29, 29));
    reveal_strlit("https://skale-pokt.nodies.app");
    assert(splits_at("https://skale-pokt.nodies.app"@, 8, 29, 29));
    reveal_strlit("https://skale.getblock.io/api/mainnet");
    assert(splits_at("https://skale.getblock.io/api/mainnet"@, 8, 25, 25));
    reveal_strlit("https://skale-mainnet.core.chainstack.com");
    assert(splits_at("https://skale-mainnet.core.chainstack.com"@, 8, 41, 41));
    reveal_strlit("https://skale.rpc.subquery.network/public");
    assert(splits_at("https://skale.rpc.subquery.network/public"@, 8, 34, 34));
}

proof fn lemma_immutable_endpoints()
    ensures
        all_well_formed(EvmType::IMMUTABLE_MAINNET.spec_rpc()),
{
    reveal_strlit("https://");
    reveal_strlit("https://rpc.immutable.com");
    assert(splits_at("https://rpc.immutable.com"@, 8, 25, 25));
    reveal_strlit("https://immutable-zkevm.drpc.org");
    assert(splits_at("https://immutable-zkevm.drpc.org"@, 8, 32, 32));
    reveal_strlit("https://rpc.immutable.com/node-api");
    assert(splits_at("https://rpc.immutable.com/node-api"@, 8, 25, 25));
    reveal_strlit("https://immutable-mainnet.core.chainstack.com");
    assert(splits_at("https://immutable-mainnet.core.chainstack.com"@, 8, 45, 45));
    reveal_strlit("https://immutable-mainnet.public.blastapi.io");
    assert(splits_at("https://immutable-mainnet.public.blastapi.io"@, 8, 44, 44));
    reveal_strlit("https://immutable.api.onfinality.io/public");
    assert(splits_at("https://immutable.api.onfinality.io/public"@, 8, 35, 35));
    reveal_strlit("https://immutable.blockpi.network/v1/rpc/public");
    assert(splits_at("https://immutable.blockpi.network/v1/rpc/public"@, 8, 33, 33));
    reveal_strlit("https://immutable-pokt.nodies.app");
    assert(splits_at("https://immutable-pokt.nodies.app"@, 8, 33, 33));
    reveal_strlit("https://immutable.getblock.io/api/mainnet");
    assert(splits_at("https://immutable.getblock.io/api/mainnet"@, 8, 29, 29));
    reveal_strlit("https://immutable.rpc.subquery.network/public");
    assert(splits_at("https://immutable.rpc.subquery.network/public"@, 8, 38, 38));
    reveal_strlit("https://immutable-mainnet.g.alchemy.com/v2/demo");
    assert(splits_at("https://immutable-mainnet.g.alchemy.com/v2/demo"@, 8, 39, 39));
}

/// Every network has at least one endpoint, and each of its endpoints is a
/// well-formed address.
pub proof fn lemma_rpc_nonempty_and_well_formed(evm_type: EvmType)
    ensures
        evm_type.spec_rpc().len() > 0,
        all_well_formed(evm_type.spec_rpc()),
{
    match evm_type {
        EvmType::ETHEREUM_MAINNET => lemma_ethereum_endpoints(),
        EvmType::ARB_MAINNET => lemma_arbitrum_endpoints(),
        EvmType::BSC_MAINNET => lemma_bsc_endpoints(),
        EvmType::BASE_MAINNET => lemma_base_endpoints(),
        EvmType::HYPEREVM_MAINNET => lemma_hyperevm_endpoints(),
        EvmType::PLASMA_MAINNET => lemma_plasma_endpoints(),
        EvmType::POLYGON_MAINNET => lemma_polygon_endpoints(),
        EvmType::OPTIMISM_MAINNET => lemma_optimism_endpoints(),
        EvmType::ZKSYNC_MAINNET => lemma_zksync_endpoints(),
        EvmType::STARKNET_MAINNET => lemma_starknet_endpoints(),
        EvmType::AVALANCHE_MAINNET => lemma_avalanche_endpoints(),
        EvmType::FANTOM_MAINNET => lemma_fantom_endpoints(),
        EvmType::RONIN_MAINNET => lemma_ronin_endpoints(),
        EvmType::SKALE_MAINNET => lemma_skale_endpoints(),
        EvmType::IMMUTABLE_MAINNET => lemma_immutable_endpoints(),
    }
}

/// No two networks share a chain identifier.
pub proof fn lemma_chain_id_unique(a: EvmType, b: EvmType)
    requires
        a.spec_chain_id() == b.spec_chain_id(),
    ensures
        a == b,
{
}

} // verus!
