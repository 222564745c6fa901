use vstd::prelude::*;
use crate::Chain;

verus! {

/// The typical block interval of each chain in milliseconds, where a
/// sensible default is known. The values are hand-curated constants,
/// intentionally approximate.
pub open spec fn blocktime_millis_of(c: Chain) -> Option<u64> {
    match c {
        Chain::Mainnet => Some(13000),
        Chain::Morden => None,
        Chain::Ropsten => None,
        Chain::Rinkeby => None,
        Chain::Goerli => None,
        Chain::Kovan => None,
        Chain::Sepolia => None,
        Chain::Optimism => Some(13000),
        Chain::OptimismKovan => None,
        Chain::OptimismGoerli => None,
        Chain::Arbitrum => Some(1300),
        Chain::ArbitrumTestnet => Some(1300),
        Chain::ArbitrumGoerli => Some(1300),
        Chain::ArbitrumNova => Some(1300),
        Chain::Cronos => Some(5700),
        Chain::CronosTestnet => Some(5700),
        Chain::Rsk => None,
        Chain::BinanceSmartChain => Some(3000),
        Chain::BinanceSmartChainTestnet => Some(3000),
        Chain::Poa => None,
        Chain::Sokol => None,
        Chain::XDai => None,
        Chain::Polygon => Some(2100),
        Chain::PolygonMumbai => Some(2100),
        Chain::Fantom => Some(1200),
        Chain::FantomTestnet => Some(1200),
        Chain::Moonbeam => Some(12500),
        Chain::MoonbeamDev => None,
        Chain::Moonriver => Some(12500),
        Chain::Moonbase => None,
        Chain::Dev => Some(200),
        Chain::AnvilHardhat => Some(200),
        Chain::Evmos => Some(1900),
        Chain::EvmosTestnet => Some(1900),
        Chain::Chiado => None,
        Chain::Oasis => Some(5500),
        Chain::Emerald => Some(6000),
        Chain::EmeraldTestnet => None,
        Chain::Avalanche => Some(2000),
        Chain::AvalancheFuji => Some(2000),
        Chain::Celo => Some(5000),
        Chain::CeloAlfajores => Some(5000),
        Chain::CeloBaklava => Some(5000),
        Chain::Aurora => Some(1100),
        Chain::AuroraTestnet => Some(1100),
    }
}

/// The block-explorer API and base URLs of each chain with a known
/// Etherscan-compatible explorer.
pub open spec fn explorer_urls_of(c: Chain) -> Option<(Seq<char>, Seq<char>)> {
    match c {
        Chain::Mainnet => Some(("https://api.etherscan.io/api"@, "https://etherscan.io"@)),
        Chain::Morden => None,
        Chain::Ropsten => Some(("https://api-ropsten.etherscan.io/api"@, "https://ropsten.etherscan.io"@)),
        Chain::Rinkeby => Some(("https://api-rinkeby.etherscan.io/api"@, "https://rinkeby.etherscan.io"@)),
        Chain::Goerli => Some(("https://api-goerli.etherscan.io/api"@, "https://goerli.etherscan.io"@)),
        Chain::Kovan => Some(("https://api-kovan.etherscan.io/api"@, "https://kovan.etherscan.io"@)),
        Chain::Sepolia => Some(("https://api-sepolia.etherscan.io/api"@, "https://sepolia.etherscan.io"@)),
        Chain::Optimism => Some(("https://api-optimistic.etherscan.io/api"@, "https://optimistic.etherscan.io"@)),
        Chain::OptimismKovan => Some(("https://api-kovan-optimistic.etherscan.io/api"@, "https://kovan-optimistic.etherscan.io"@)),
        Chain::OptimismGoerli => Some(("https://api-goerli-optimistic.etherscan.io/api"@, "https://goerli-optimism.etherscan.io"@)),
        Chain::Arbitrum => Some(("https://api.arbiscan.io/api"@, "https://arbiscan.io"@)),
        Chain::ArbitrumTestnet => Some(("https://api-testnet.arbiscan.io/api"@, "https://testnet.arbiscan.io"@)),
        Chain::ArbitrumGoerli => Some(("https://goerli-rollup-explorer.arbitrum.io/api"@, "https://goerli-rollup-explorer.arbitrum.io"@)),
        Chain::ArbitrumNova => Some(("https://api-nova.arbiscan.io/api"@, "https://nova.arbiscan.io/"@)),
        Chain::Cronos => Some(("https://api.cronoscan.com/api"@, "https://cronoscan.com"@)),
        Chain::CronosTestnet => Some(("https://api-testnet.cronoscan.com/api"@, "https://testnet.cronoscan.com"@)),
        Chain::Rsk => Some(("https://blockscout.com/rsk/mainnet/api"@, "https://blockscout.com/rsk/mainnet"@)),
        Chain::BinanceSmartChain => Some(("https://api.bscscan.com/api"@, "https://bscscan.com"@)),
        Chain::BinanceSmartChainTestnet => Some(("https://api-testnet.bscscan.com/api"@, "https://testnet.bscscan.com"@)),
        Chain::Poa => Some(("https://blockscout.com/poa/core/api"@, "https://blockscout.com/poa/core"@)),
        Chain::Sokol => Some(("https://blockscout.com/poa/sokol/api"@, "https://blockscout.com/poa/sokol"@)),
        Chain::XDai => Some(("https://blockscout.com/xdai/mainnet/api"@, "https://blockscout.com/xdai/mainnet"@)),
        Chain::Polygon => Some(("https://api.polygonscan.com/api"@, "https://polygonscan.com"@)),
        Chain::PolygonMumbai => Some(("https://api-testnet.polygonscan.com/api"@, "https://mumbai.polygonscan.com"@)),
        Chain::Fantom => Some(("https://api.ftmscan.com/api"@, "https://ftmscan.com"@)),
        Chain::FantomTestnet => Some(("https://api-testnet.ftmscan.com/api"@, "https://testnet.ftmscan.com"@)),
        Chain::Moonbeam => Some(("https://api-moonbeam.moonscan.io/api"@, "https://moonbeam.moonscan.io/"@)),
        Chain::MoonbeamDev => None,
        Chain::Moonriver => Some(("https://api-moonriver.moonscan.io/api"@, "https://moonriver.moonscan.io"@)),
        Chain::Moonbase => Some(("https://api-moonbase.moonscan.io/api"@, "https://moonbase.moonscan.io/"@)),
        Chain::Dev => None,
        Chain::AnvilHardhat => None,
        Chain::Evmos => Some(("https://evm.evmos.org/api"@, "https://evm.evmos.org/"@)),
        Chain::EvmosTestnet => Some(("https://evm.evmos.dev/api"@, "https://evm.evmos.dev/"@)),
        Chain::Chiado => Some(("https://blockscout.chiadochain.net/api"@, "https://blockscout.chiadochain.net"@)),
        Chain::Oasis => Some(("https://scan.oasischain.io/api"@, "https://scan.oasischain.io/"@)),
        Chain::Emerald => Some(("https://explorer.emerald.oasis.dev/api"@, "https://explorer.emerald.oasis.dev/"@)),
        Chain::EmeraldTestnet => Some(("https://testnet.explorer.emerald.oasis.dev/api"@, "https://testnet.explorer.emerald.oasis.dev/"@)),
        Chain::Avalanche => Some(("https://api.snowtrace.io/api"@, "https://snowtrace.io"@)),
        Chain::AvalancheFuji => Some(("https://api-testnet.snowtrace.io/api"@, "https://testnet.snowtrace.io"@)),
        Chain::Celo => Some(("https://explorer.celo.org/mainnet"@, "https://explorer.celo.org/mainnet/api"@)),
        Chain::CeloAlfajores => Some(("https://explorer.celo.org/alfajores"@, "https://explorer.celo.org/alfajores/api"@)),
        Chain::CeloBaklava => Some(("https://explorer.celo.org/baklava"@, "https://explorer.celo.org/baklava/api"@)),
        Chain::Aurora => Some(("https://api.aurorascan.dev/api"@, "https://aurorascan.dev"@)),
        Chain::AuroraTestnet => Some(("https://testnet.aurorascan.dev/api"@, "https://testnet.aurorascan.dev"@)),
    }
}

/// Whether each chain is classified as legacy, that is, without the
/// newer fee-market transaction type. Chains whose status is unknown
/// are deliberately classified as not legacy, for backward
/// compatibility.
pub open spec fn is_legacy_of(c: Chain) -> bool {
    match c {
        Chain::Mainnet => false,
        Chain::Morden => false,
        Chain::Ropsten => false,
        Chain::Rinkeby => false,
        Chain::Goerli => false,
        Chain::Kovan => false,
        Chain::Sepolia => false,
        Chain::Optimism => true,
        Chain::OptimismKovan => true,
        Chain::OptimismGoerli => true,
        Chain::Arbitrum => true,
        Chain::ArbitrumTestnet => true,
        Chain::ArbitrumGoerli => true,
        Chain::ArbitrumNova => true,
        Chain::Cronos => false,
        Chain::CronosTestnet => false,
        Chain::Rsk => true,
        Chain::BinanceSmartChain => true,
        Chain::BinanceSmartChainTestnet => true,
        Chain::Poa => false,
        Chain::Sokol => false,
        Chain::XDai => false,
        Chain::Polygon => false,
        Chain::PolygonMumbai => false,
        Chain::Fantom => true,
        Chain::FantomTestnet => true,
        Chain::Moonbeam => false,
        Chain::MoonbeamDev => false,
        Chain::Moonriver => false,
        Chain::Moonbase => false,
        Chain::Dev => false,
        Chain::AnvilHardhat => false,
        Chain::Evmos => false,
        Chain::EvmosTestnet => false,
        Chain::Chiado => false,
        Chain::Oasis => true,
        Chain::Emerald => true,
        Chain::EmeraldTestnet => true,
        Chain::Avalanche => false,
        Chain::AvalancheFuji => false,
        Chain::Celo => true,
        Chain::CeloAlfajores => true,
        Chain::CeloBaklava => true,
        Chain::Aurora => false,
        Chain::AuroraTestnet => false,
    }
}

impl Chain {
    /// The chain's average blocktime in milliseconds, if a sensible
    /// default is known. Useful for tuning how often a caller polls
    /// for a new block; not an accurate average.
    pub fn average_blocktime_hint(&self) -> (r: Option<u64>)
        ensures
            r == blocktime_millis_of(*self),
    {
        match *self {
            Chain::Mainnet => Some(13000),
            Chain::Morden => None,
            Chain::Ropsten => None,
            Chain::Rinkeby => None,
            Chain::Goerli => None,
            Chain::Kovan => None,
            Chain::Sepolia => None,
            Chain::Optimism => Some(13000),
            Chain::OptimismKovan => None,
            Chain::OptimismGoerli => None,
            Chain::Arbitrum => Some(1300),
            Chain::ArbitrumTestnet => Some(1300),
            Chain::ArbitrumGoerli => Some(1300),
            Chain::ArbitrumNova => Some(1300),
            Chain::Cronos => Some(5700),
            Chain::CronosTestnet => Some(5700),
            Chain::Rsk => None,
            Chain::BinanceSmartChain => Some(3000),
            Chain::BinanceSmartChainTestnet => Some(3000),
            Chain::Poa => None,
            Chain::Sokol => None,
            Chain::XDai => None,
            Chain::Polygon => Some(2100),
            Chain::PolygonMumbai => Some(2100),
            Chain::Fantom => Some(1200),
            Chain::FantomTestnet => Some(1200),
            Chain::Moonbeam => Some(12500),
            Chain::MoonbeamDev => None,
            Chain::Moonriver => Some(12500),
            Chain::Moonbase => None,
            Chain::Dev => Some(200),
            Chain::AnvilHardhat => Some(200),
            Chain::Evmos => Some(1900),
            Chain::EvmosTestnet => Some(1900),
            Chain::Chiado => None,
            Chain::Oasis => Some(5500),
            Chain::Emerald => Some(6000),
            Chain::EmeraldTestnet => None,
            Chain::Avalanche => Some(2000),
            Chain::AvalancheFuji => Some(2000),
            Chain::Celo => Some(5000),
            Chain::CeloAlfajores => Some(5000),
            Chain::CeloBaklava => Some(5000),
            Chain::Aurora => Some(1100),
            Chain::AuroraTestnet => Some(1100),
        }
    }

    /// The chain's block-explorer API URL and base URL, as
    /// `(api_url, base_url)`, for chains with a known explorer.
    pub fn etherscan_urls(&self) -> (r: Option<(&'static str, &'static str)>)
        ensures
            match r {
                Some(u) => explorer_urls_of(*self) == Some((u.0@, u.1@)),
                None => explorer_urls_of(*self) is None,
            },
    {
        match *self {
            Chain::Mainnet => Some(("https://api.etherscan.io/api", "https://etherscan.io")),
            Chain::Morden => None,
            Chain::Ropsten => Some(("https://api-ropsten.etherscan.io/api", "https://ropsten.etherscan.io")),
            Chain::Rinkeby => Some(("https://api-rinkeby.etherscan.io/api", "https://rinkeby.etherscan.io")),
            Chain::Goerli => Some(("https://api-goerli.etherscan.io/api", "https://goerli.etherscan.io")),
            Chain::Kovan => Some(("https://api-kovan.etherscan.io/api", "https://kovan.etherscan.io")),
            Chain::Sepolia => Some(("https://api-sepolia.etherscan.io/api", "https://sepolia.etherscan.io")),
            Chain::Optimism => Some(("https://api-optimistic.etherscan.io/api", "https://optimistic.etherscan.io")),
            Chain::OptimismKovan => Some(("https://api-kovan-optimistic.etherscan.io/api", "https://kovan-optimistic.etherscan.io")),
            Chain::OptimismGoerli => Some(("https://api-goerli-optimistic.etherscan.io/api", "https://goerli-optimism.etherscan.io")),
            Chain::Arbitrum => Some(("https://api.arbiscan.io/api", "https://arbiscan.io")),
            Chain::ArbitrumTestnet => Some(("https://api-testnet.arbiscan.io/api", "https://testnet.arbiscan.io")),
            Chain::ArbitrumGoerli => Some(("https://goerli-rollup-explorer.arbitrum.io/api", "https://goerli-rollup-explorer.arbitrum.io")),
            Chain::ArbitrumNova => Some(("https://api-nova.arbiscan.io/api", "https://nova.arbiscan.io/")),
            Chain::Cronos => Some(("https://api.cronoscan.com/api", "https://cronoscan.com")),
            Chain::CronosTestnet => Some(("https://api-testnet.cronoscan.com/api", "https://testnet.cronoscan.com")),
            Chain::Rsk => Some(("https://blockscout.com/rsk/mainnet/api", "https://blockscout.com/rsk/mainnet")),
            Chain::BinanceSmartChain => Some(("https://api.bscscan.com/api", "https://bscscan.com")),
            Chain::BinanceSmartChainTestnet => Some(("https://api-testnet.bscscan.com/api", "https://testnet.bscscan.com")),
            Chain::Poa => Some(("https://blockscout.com/poa/core/api", "https://blockscout.com/poa/core")),
            Chain::Sokol => Some(("https://blockscout.com/poa/sokol/api", "https://blockscout.com/poa/sokol")),
            Chain::XDai => Some(("https://blockscout.com/xdai/mainnet/api", "https://blockscout.com/xdai/mainnet")),
            Chain::Polygon => Some(("https://api.polygonscan.com/api", "https://polygonscan.com")),
            Chain::PolygonMumbai => Some(("https://api-testnet.polygonscan.com/api", "https://mumbai.polygonscan.com")),
            Chain::Fantom => Some(("https://api.ftmscan.com/api", "https://ftmscan.com")),
            Chain::FantomTestnet => Some(("https://api-testnet.ftmscan.com/api", "https://testnet.ftmscan.com")),
            Chain::Moonbeam => Some(("https://api-moonbeam.moonscan.io/api", "https://moonbeam.moonscan.io/")),
            Chain::MoonbeamDev => None,
            Chain::Moonriver => Some(("https://api-moonriver.moonscan.io/api", "https://moonriver.moonscan.io")),
            Chain::Moonbase => Some(("https://api-moonbase.moonscan.io/api", "https://moonbase.moonscan.io/")),
            Chain::Dev => None,
            Chain::AnvilHardhat => None,
            Chain::Evmos => Some(("https://evm.evmos.org/api", "https://evm.evmos.org/")),
            Chain::EvmosTestnet => Some(("https://evm.evmos.dev/api", "https://evm.evmos.dev/")),
            Chain::Chiado => Some(("https://blockscout.chiadochain.net/api", "https://blockscout.chiadochain.net")),
            Chain::Oasis => Some(("https://scan.oasischain.io/api", "https://scan.oasischain.io/")),
            Chain::Emerald => Some(("https://explorer.emerald.oasis.dev/api", "https://explorer.emerald.oasis.dev/")),
            Chain::EmeraldTestnet => Some(("https://testnet.explorer.emerald.oasis.dev/api", "https://testnet.explorer.emerald.oasis.dev/")),
            Chain::Avalanche => Some(("https://api.snowtrace.io/api", "https://snowtrace.io")),
            Chain::AvalancheFuji => Some(("https://api-testnet.snowtrace.io/api", "https://testnet.snowtrace.io")),
            Chain::Celo => Some(("https://explorer.celo.org/mainnet", "https://explorer.celo.org/mainnet/api")),
            Chain::CeloAlfajores => Some(("https://explorer.celo.org/alfajores", "https://explorer.celo.org/alfajores/api")),
            Chain::CeloBaklava => Some(("https://explorer.celo.org/baklava", "https://explorer.celo.org/baklava/api")),
            Chain::Aurora => Some(("https://api.aurorascan.dev/api", "https://aurorascan.dev")),
            Chain::AuroraTestnet => Some(("https://testnet.aurorascan.dev/api", "https://testnet.aurorascan.dev")),
        }
    }

    /// Whether the chain uses only legacy transactions, without the
    /// newer fee-market fields. Unknown chains report `false`.
    pub fn is_legacy(&self) -> (r: bool)
        ensures
            r == is_legacy_of(*self),
    {
        match *self {
            Chain::Mainnet => false,
            Chain::Morden => false,
            Chain::Ropsten => false,
            Chain::Rinkeby => false,
            Chain::Goerli => false,
            Chain::Kovan => false,
            Chain::Sepolia => false,
            Chain::Optimism => true,
            Chain::OptimismKovan => true,
            Chain::OptimismGoerli => true,
            Chain::Arbitrum => true,
            Chain::ArbitrumTestnet => true,
            Chain::ArbitrumGoerli => true,
            Chain::ArbitrumNova => true,
            Chain::Cronos => false,
            Chain::CronosTestnet => false,
            Chain::Rsk => true,
            Chain::BinanceSmartChain => true,
            Chain::BinanceSmartChainTestnet => true,
            Chain::Poa => false,
            Chain::Sokol => false,
            Chain::XDai => false,
            Chain::Polygon => false,
            Chain::PolygonMumbai => false,
            Chain::Fantom => true,
            Chain::FantomTestnet => true,
            Chain::Moonbeam => false,
            Chain::MoonbeamDev => false,
            Chain::Moonriver => false,
            Chain::Moonbase => false,
            Chain::Dev => false,
            Chain::AnvilHardhat => false,
            Chain::Evmos => false,
            Chain::EvmosTestnet => false,
            Chain::Chiado => false,
            Chain::Oasis => true,
            Chain::Emerald => true,
            Chain::EmeraldTestnet => true,
            Chain::Avalanche => false,
            Chain::AvalancheFuji => false,
            Chain::Celo => true,
            Chain::CeloAlfajores => true,
            Chain::CeloBaklava => true,
            Chain::Aurora => false,
            Chain::AuroraTestnet => false,
        }
    }
}

} // verus!
