use vstd::prelude::*;

use crate::{Chain, ParseChainError};

verus! {

/// The unique EIP-155 numeric id of each chain.
pub open spec fn id_of(c: Chain) -> u64 {
    match c {
        Chain::Mainnet => 1,
        Chain::Morden => 2,
        Chain::Ropsten => 3,
        Chain::Rinkeby => 4,
        Chain::Goerli => 5,
        Chain::Kovan => 42,
        Chain::Sepolia => 11155111,
        Chain::Optimism => 10,
        Chain::OptimismKovan => 69,
        Chain::OptimismGoerli => 420,
        Chain::Arbitrum => 42161,
        Chain::ArbitrumTestnet => 421611,
        Chain::ArbitrumGoerli => 421613,
        Chain::ArbitrumNova => 42170,
        Chain::Cronos => 25,
        Chain::CronosTestnet => 338,
        Chain::Rsk => 30,
        Chain::BinanceSmartChain => 56,
        Chain::BinanceSmartChainTestnet => 97,
        Chain::Poa => 99,
        Chain::Sokol => 77,
        Chain::XDai => 100,
        Chain::Polygon => 137,
        Chain::PolygonMumbai => 80001,
        Chain::Fantom => 250,
        Chain::FantomTestnet => 4002,
        Chain::Moonbeam => 1284,
        Chain::MoonbeamDev => 1281,
        Chain::Moonriver => 1285,
        Chain::Moonbase => 1287,
        Chain::Dev => 1337,
        Chain::AnvilHardhat => 31337,
        Chain::Evmos => 9001,
        Chain::EvmosTestnet => 9000,
        Chain::Chiado => 10200,
        Chain::Oasis => 26863,
        Chain::Emerald => 42262,
        Chain::EmeraldTestnet => 42261,
        Chain::Avalanche => 43114,
        Chain::AvalancheFuji => 43113,
        Chain::Celo => 42220,
        Chain::CeloAlfajores => 44787,
        Chain::CeloBaklava => 62320,
        Chain::Aurora => 1313161554,
        Chain::AuroraTestnet => 1313161555,
    }
}

/// The chain registered under a numeric id, if any.
pub open spec fn chain_of_id(v: u64) -> Option<Chain> {
    if v == 1 {
        Some(Chain::Mainnet)
    } else if v == 2 {
        Some(Chain::Morden)
    } else if v == 3 {
        Some(Chain::Ropsten)
    } else if v == 4 {
        Some(Chain::Rinkeby)
    } else if v == 5 {
        Some(Chain::Goerli)
    } else if v == 42 {
        Some(Chain::Kovan)
    } else if v == 11155111 {
        Some(Chain::Sepolia)
    } else if v == 10 {
        Some(Chain::Optimism)
    } else if v == 69 {
        Some(Chain::OptimismKovan)
    } else if v == 420 {
        Some(Chain::OptimismGoerli)
    } else if v == 42161 {
        Some(Chain::Arbitrum)
    } else if v == 421611 {
        Some(Chain::ArbitrumTestnet)
    } else if v == 421613 {
        Some(Chain::ArbitrumGoerli)
    } else if v == 42170 {
        Some(Chain::ArbitrumNova)
    } else if v == 25 {
        Some(Chain::Cronos)
    } else if v == 338 {
        Some(Chain::CronosTestnet)
    } else if v == 30 {
        Some(Chain::Rsk)
    } else if v == 56 {
        Some(Chain::BinanceSmartChain)
    } else if v == 97 {
        Some(Chain::BinanceSmartChainTestnet)
    } else if v == 99 {
        Some(Chain::Poa)
    } else if v == 77 {
        Some(Chain::Sokol)
    } else if v == 100 {
        Some(Chain::XDai)
    } else if v == 137 {
        Some(Chain::Polygon)
    } else if v == 80001 {
        Some(Chain::PolygonMumbai)
    } else if v == 250 {
        Some(Chain::Fantom)
    } else if v == 4002 {
        Some(Chain::FantomTestnet)
    } else if v == 1284 {
        Some(Chain::Moonbeam)
    } else if v == 1281 {
        Some(Chain::MoonbeamDev)
    } else if v == 1285 {
        Some(Chain::Moonriver)
    } else if v == 1287 {
        Some(Chain::Moonbase)
    } else if v == 1337 {
        Some(Chain::Dev)
    } else if v == 31337 {
        Some(Chain::AnvilHardhat)
    } else if v == 9001 {
        Some(Chain::Evmos)
    } else if v == 9000 {
        Some(Chain::EvmosTestnet)
    } else if v == 10200 {
        Some(Chain::Chiado)
    } else if v == 26863 {
        Some(Chain::Oasis)
    } else if v == 42262 {
        Some(Chain::Emerald)
    } else if v == 42261 {
        Some(Chain::EmeraldTestnet)
    } else if v == 43114 {
        Some(Chain::Avalanche)
    } else if v == 43113 {
        Some(Chain::AvalancheFuji)
    } else if v == 42220 {
        Some(Chain::Celo)
    } else if v == 44787 {
        Some(Chain::CeloAlfajores)
    } else if v == 62320 {
        Some(Chain::CeloBaklava)
    } else if v == 1313161554 {
        Some(Chain::Aurora)
    } else if v == 1313161555 {
        Some(Chain::AuroraTestnet)
    } else {
        None
    }
}

/// What a numeric lookup returns: the registered chain, or an error
/// carrying the rejected id.
pub open spec fn from_u64_result(v: u64) -> Result<Chain, ParseChainError> {
    match chain_of_id(v) {
        Some(c) => Ok(c),
        None => Err(ParseChainError::UnknownChainId(v)),
    }
}

impl Chain {
    /// The chain's numeric id. Total and exact: every chain has one.
    pub fn to_u64(&self) -> (r: u64)
        ensures
            r == id_of(*self),
    {
        match *self {
            Chain::Mainnet => 1,
            Chain::Morden => 2,
            Chain::Ropsten => 3,
            Chain::Rinkeby => 4,
            Chain::Goerli => 5,
            Chain::Kovan => 42,
            Chain::Sepolia => 11155111,
            Chain::Optimism => 10,
            Chain::OptimismKovan => 69,
            Chain::OptimismGoerli => 420,
            Chain::Arbitrum => 42161,
            Chain::ArbitrumTestnet => 421611,
            Chain::ArbitrumGoerli => 421613,
            Chain::ArbitrumNova => 42170,
            Chain::Cronos => 25,
            Chain::CronosTestnet => 338,
            Chain::Rsk => 30,
            Chain::BinanceSmartChain => 56,
            Chain::BinanceSmartChainTestnet => 97,
            Chain::Poa => 99,
            Chain::Sokol => 77,
            Chain::XDai => 100,
            Chain::Polygon => 137,
            Chain::PolygonMumbai => 80001,
            Chain::Fantom => 250,
            Chain::FantomTestnet => 4002,
            Chain::Moonbeam => 1284,
            Chain::MoonbeamDev => 1281,
            Chain::Moonriver => 1285,
            Chain::Moonbase => 1287,
            Chain::Dev => 1337,
            Chain::AnvilHardhat => 31337,
            Chain::Evmos => 9001,
            Chain::EvmosTestnet => 9000,
            Chain::Chiado => 10200,
            Chain::Oasis => 26863,
            Chain::Emerald => 42262,
            Chain::EmeraldTestnet => 42261,
            Chain::Avalanche => 43114,
            Chain::AvalancheFuji => 43113,
            Chain::Celo => 42220,
            Chain::CeloAlfajores => 44787,
            Chain::CeloBaklava => 62320,
            Chain::Aurora => 1313161554,
            Chain::AuroraTestnet => 1313161555,
        }
    }

    /// Looks a chain up by its numeric id; fails with the rejected id
    /// when no chain has it.
    pub fn from_u64(value: u64) -> (r: Result<Chain, ParseChainError>)
        ensures
            r == from_u64_result(value),
    {
        if value == 1 {
            Ok(Chain::Mainnet)
        } else if value == 2 {
            Ok(Chain::Morden)
        } else if value == 3 {
            Ok(Chain::Ropsten)
        } else if value == 4 {
            Ok(Chain::Rinkeby)
        } else if value == 5 {
            Ok(Chain::Goerli)
        } else if value == 42 {
            Ok(Chain::Kovan)
        } else if value == 11155111 {
            Ok(Chain::Sepolia)
        } else if value == 10 {
            Ok(Chain::Optimism)
        } else if value == 69 {
            Ok(Chain::OptimismKovan)
        } else if value == 420 {
            Ok(Chain::OptimismGoerli)
        } else if value == 42161 {
            Ok(Chain::Arbitrum)
        } else if value == 421611 {
            Ok(Chain::ArbitrumTestnet)
        } else if value == 421613 {
            Ok(Chain::ArbitrumGoerli)
        } else if value == 42170 {
            Ok(Chain::ArbitrumNova)
        } else if value == 25 {
            Ok(Chain::Cronos)
        } else if value == 338 {
            Ok(Chain::CronosTestnet)
        } else if value == 30 {
            Ok(Chain::Rsk)
        } else if value == 56 {
            Ok(Chain::BinanceSmartChain)
        } else if value == 97 {
            Ok(Chain::BinanceSmartChainTestnet)
        } else if value == 99 {
            Ok(Chain::Poa)
        } else if value == 77 {
            Ok(Chain::Sokol)
        } else if value == 100 {
            Ok(Chain::XDai)
        } else if value == 137 {
            Ok(Chain::Polygon)
        } else if value == 80001 {
            Ok(Chain::PolygonMumbai)
        } else if value == 250 {
            Ok(Chain::Fantom)
        } else if value == 4002 {
            Ok(Chain::FantomTestnet)
        } else if value == 1284 {
            Ok(Chain::Moonbeam)
        } else if value == 1281 {
            Ok(Chain::MoonbeamDev)
        } else if value == 1285 {
            Ok(Chain::Moonriver)
        } else if value == 1287 {
            Ok(Chain::Moonbase)
        } else if value == 1337 {
            Ok(Chain::Dev)
        } else if value == 31337 {
            Ok(Chain::AnvilHardhat)
        } else if value == 9001 {
            Ok(Chain::Evmos)
        } else if value == 9000 {
            Ok(Chain::EvmosTestnet)
        } else if value == 10200 {
            Ok(Chain::Chiado)
        } else if value == 26863 {
            Ok(Chain::Oasis)
        } else if value == 42262 {
            Ok(Chain::Emerald)
        } else if value == 42261 {
            Ok(Chain::EmeraldTestnet)
        } else if value == 43114 {
            Ok(Chain::Avalanche)
        } else if value == 43113 {
            Ok(Chain::AvalancheFuji)
        } else if value == 42220 {
            Ok(Chain::Celo)
        } else if value == 44787 {
            Ok(Chain::CeloAlfajores)
        } else if value == 62320 {
            Ok(Chain::CeloBaklava)
        } else if value == 1313161554 {
            Ok(Chain::Aurora)
        } else if value == 1313161555 {
            Ok(Chain::AuroraTestnet)
        } else {
            Err(ParseChainError::UnknownChainId(value))
        }
    }

    /// Looks a chain up by a u8 id, widening it to 64 bits.
    pub fn from_u8(value: u8) -> (r: Result<Chain, ParseChainError>)
        ensures
            r == from_u64_result(value as u64),
    {
        Self::from_u64(value as u64)
    }

    /// Looks a chain up by a u16 id, widening it to 64 bits.
    pub fn from_u16(value: u16) -> (r: Result<Chain, ParseChainError>)
        ensures
            r == from_u64_result(value as u64),
    {
        Self::from_u64(value as u64)
    }

    /// Looks a chain up by a u32 id, widening it to 64 bits.
    pub fn from_u32(value: u32) -> (r: Result<Chain, ParseChainError>)
        ensures
            r == from_u64_result(value as u64),
    {
        Self::from_u64(value as u64)
    }

    /// Looks a chain up by a usize id, widening it to 64 bits.
    pub fn from_usize(value: usize) -> (r: Result<Chain, ParseChainError>)
        ensures
            r == from_u64_result(value as u64),
    {
        Self::from_u64(value as u64)
    }

}

/// Law: converting a chain to its numeric id and looking that id up
/// yields the same chain (numeric round-trip).
pub proof fn lemma_id_round_trip(c: Chain)
    ensures
        chain_of_id(id_of(c)) == Some(c),
{
    match c {
        Chain::Mainnet => { assert(chain_of_id(1) == Some(Chain::Mainnet)); }
        Chain::Morden => { assert(chain_of_id(2) == Some(Chain::Morden)); }
        Chain::Ropsten => { assert(chain_of_id(3) == Some(Chain::Ropsten)); }
        Chain::Rinkeby => { assert(chain_of_id(4) == Some(Chain::Rinkeby)); }
        Chain::Goerli => { assert(chain_of_id(5) == Some(Chain::Goerli)); }
        Chain::Kovan => { assert(chain_of_id(42) == Some(Chain::Kovan)); }
        Chain::Sepolia => { assert(chain_of_id(11155111) == Some(Chain::Sepolia)); }
        Chain::Optimism => { assert(chain_of_id(10) == Some(Chain::Optimism)); }
        Chain::OptimismKovan => { assert(chain_of_id(69) == Some(Chain::OptimismKovan)); }
        Chain::OptimismGoerli => { assert(chain_of_id(420) == Some(Chain::OptimismGoerli)); }
        Chain::Arbitrum => { assert(chain_of_id(42161) == Some(Chain::Arbitrum)); }
        Chain::ArbitrumTestnet => { assert(chain_of_id(421611) == Some(Chain::ArbitrumTestnet)); }
        Chain::ArbitrumGoerli => { assert(chain_of_id(421613) == Some(Chain::ArbitrumGoerli)); }
        Chain::ArbitrumNova => { assert(chain_of_id(42170) == Some(Chain::ArbitrumNova)); }
        Chain::Cronos => { assert(chain_of_id(25) == Some(Chain::Cronos)); }
        Chain::CronosTestnet => { assert(chain_of_id(338) == Some(Chain::CronosTestnet)); }
        Chain::Rsk => { assert(chain_of_id(30) == Some(Chain::Rsk)); }
        Chain::BinanceSmartChain => { assert(chain_of_id(56) == Some(Chain::BinanceSmartChain)); }
        Chain::BinanceSmartChainTestnet => { assert(chain_of_id(97) == Some(Chain::BinanceSmartChainTestnet)); }
        Chain::Poa => { assert(chain_of_id(99) == Some(Chain::Poa)); }
        Chain::Sokol => { assert(chain_of_id(77) == Some(Chain::Sokol)); }
        Chain::XDai => { assert(chain_of_id(100) == Some(Chain::XDai)); }
        Chain::Polygon => { assert(chain_of_id(137) == Some(Chain::Polygon)); }
        Chain::PolygonMumbai => { assert(chain_of_id(80001) == Some(Chain::PolygonMumbai)); }
        Chain::Fantom => { assert(chain_of_id(250) == Some(Chain::Fantom)); }
        Chain::FantomTestnet => { assert(chain_of_id(4002) == Some(Chain::FantomTestnet)); }
        Chain::Moonbeam => { assert(chain_of_id(1284) == Some(Chain::Moonbeam)); }
        Chain::MoonbeamDev => { assert(chain_of_id(1281) == Some(Chain::MoonbeamDev)); }
        Chain::Moonriver => { assert(chain_of_id(1285) == Some(Chain::Moonriver)); }
        Chain::Moonbase => { assert(chain_of_id(1287) == Some(Chain::Moonbase)); }
        Chain::Dev => { assert(chain_of_id(1337) == Some(Chain::Dev)); }
        Chain::AnvilHardhat => { assert(chain_of_id(31337) == Some(Chain::AnvilHardhat)); }
        Chain::Evmos => { assert(chain_of_id(9001) == Some(Chain::Evmos)); }
        Chain::EvmosTestnet => { assert(chain_of_id(9000) == Some(Chain::EvmosTestnet)); }
        Chain::Chiado => { assert(chain_of_id(10200) == Some(Chain::Chiado)); }
        Chain::Oasis => { assert(chain_of_id(26863) == Some(Chain::Oasis)); }
        Chain::Emerald => { assert(chain_of_id(42262) == Some(Chain::Emerald)); }
        Chain::EmeraldTestnet => { assert(chain_of_id(42261) == Some(Chain::EmeraldTestnet)); }
        Chain::Avalanche => { assert(chain_of_id(43114) == Some(Chain::Avalanche)); }
        Chain::AvalancheFuji => { assert(chain_of_id(43113) == Some(Chain::AvalancheFuji)); }
        Chain::Celo => { assert(chain_of_id(42220) == Some(Chain::Celo)); }
        Chain::CeloAlfajores => { assert(chain_of_id(44787) == Some(Chain::CeloAlfajores)); }
        Chain::CeloBaklava => { assert(chain_of_id(62320) == Some(Chain::CeloBaklava)); }
        Chain::Aurora => { assert(chain_of_id(1313161554) == Some(Chain::Aurora)); }
        Chain::AuroraTestnet => { assert(chain_of_id(1313161555) == Some(Chain::AuroraTestnet)); }
    }
}

/// Law: no two chains share a numeric id.
pub proof fn lemma_id_unique(c1: Chain, c2: Chain)
    requires
        id_of(c1) == id_of(c2),
    ensures
        c1 == c2,
{
    lemma_id_round_trip(c1);
    lemma_id_round_trip(c2);
}

/// Law: a numeric lookup succeeds exactly when some chain has the id;
/// in particular it fails for every value that is no chain's id.
pub proof fn lemma_known_id(v: u64)
    ensures
        (from_u64_result(v) is Ok) <==> (exists|c: Chain| id_of(c) == v),
{
    if from_u64_result(v) is Ok {
        match chain_of_id(v) {
            Some(c) => { assert(id_of(c) == v); }
            None => { }
        }
    }
    if exists|c: Chain| id_of(c) == v {
        let c = choose|c: Chain| id_of(c) == v;
        lemma_id_round_trip(c);
    }
}

} // verus!
