use vstd::prelude::*;
use vstd::string::StrSliceExecFns;
use crate::{Chain, ParseChainError};

verus! {

/// The canonical name of each chain: unique, lowercase and
/// hyphen-separated. It is the form used for display and
/// serialization; aliases are accepted only when parsing.
pub open spec fn canonical_name(c: Chain) -> Seq<char> {
    match c {
        Chain::Mainnet => "mainnet"@,
        Chain::Morden => "morden"@,
        Chain::Ropsten => "ropsten"@,
        Chain::Rinkeby => "rinkeby"@,
        Chain::Goerli => "goerli"@,
        Chain::Kovan => "kovan"@,
        Chain::Sepolia => "sepolia"@,
        Chain::Optimism => "optimism"@,
        Chain::OptimismKovan => "optimism-kovan"@,
        Chain::OptimismGoerli => "optimism-goerli"@,
        Chain::Arbitrum => "arbitrum"@,
        Chain::ArbitrumTestnet => "arbitrum-testnet"@,
        Chain::ArbitrumGoerli => "arbitrum-goerli"@,
        Chain::ArbitrumNova => "arbitrum-nova"@,
        Chain::Cronos => "cronos"@,
        Chain::CronosTestnet => "cronos-testnet"@,
        Chain::Rsk => "rsk"@,
        Chain::BinanceSmartChain => "binance-smart-chain"@,
        Chain::BinanceSmartChainTestnet => "binance-smart-chain-testnet"@,
        Chain::Poa => "poa"@,
        Chain::Sokol => "sokol"@,
        Chain::XDai => "x-dai"@,
        Chain::Polygon => "polygon"@,
        Chain::PolygonMumbai => "polygon-mumbai"@,
        Chain::Fantom => "fantom"@,
        Chain::FantomTestnet => "fantom-testnet"@,
        Chain::Moonbeam => "moonbeam"@,
        Chain::MoonbeamDev => "moonbeam-dev"@,
        Chain::Moonriver => "moonriver"@,
        Chain::Moonbase => "moonbase"@,
        Chain::Dev => "dev"@,
        Chain::AnvilHardhat => "anvil-hardhat"@,
        Chain::Evmos => "evmos"@,
        Chain::EvmosTestnet => "evmos-testnet"@,
        Chain::Chiado => "chiado"@,
        Chain::Oasis => "oasis"@,
        Chain::Emerald => "emerald"@,
        Chain::EmeraldTestnet => "emerald-testnet"@,
        Chain::Avalanche => "avalanche"@,
        Chain::AvalancheFuji => "avalanche-fuji"@,
        Chain::Celo => "celo"@,
        Chain::CeloAlfajores => "celo-alfajores"@,
        Chain::CeloBaklava => "celo-baklava"@,
        Chain::Aurora => "aurora"@,
        Chain::AuroraTestnet => "aurora-testnet"@,
    }
}

/// The aliases of each chain: extra strings accepted when parsing,
/// never produced when formatting.
pub open spec fn aliases_of(c: Chain) -> Set<Seq<char>> {
    match c {
        Chain::Mainnet => Set::empty(),
        Chain::Morden => Set::empty(),
        Chain::Ropsten => Set::empty(),
        Chain::Rinkeby => Set::empty(),
        Chain::Goerli => Set::empty(),
        Chain::Kovan => Set::empty(),
        Chain::Sepolia => Set::empty(),
        Chain::Optimism => Set::empty(),
        Chain::OptimismKovan => Set::empty(),
        Chain::OptimismGoerli => Set::empty(),
        Chain::Arbitrum => Set::empty(),
        Chain::ArbitrumTestnet => Set::empty(),
        Chain::ArbitrumGoerli => Set::empty(),
        Chain::ArbitrumNova => Set::empty(),
        Chain::Cronos => Set::empty(),
        Chain::CronosTestnet => Set::empty(),
        Chain::Rsk => Set::empty(),
        Chain::BinanceSmartChain => set!["bsc"@],
        Chain::BinanceSmartChainTestnet => set!["bsc-testnet"@],
        Chain::Poa => Set::empty(),
        Chain::Sokol => Set::empty(),
        Chain::XDai => set!["gnosis"@, "xdai"@, "gnosis-chain"@],
        Chain::Polygon => Set::empty(),
        Chain::PolygonMumbai => set!["mumbai"@, "polygon-mumbai"@],
        Chain::Fantom => Set::empty(),
        Chain::FantomTestnet => Set::empty(),
        Chain::Moonbeam => Set::empty(),
        Chain::MoonbeamDev => Set::empty(),
        Chain::Moonriver => Set::empty(),
        Chain::Moonbase => Set::empty(),
        Chain::Dev => set!["dev"@],
        Chain::AnvilHardhat => set!["anvil-hardhat"@, "anvil"@, "hardhat"@],
        Chain::Evmos => Set::empty(),
        Chain::EvmosTestnet => Set::empty(),
        Chain::Chiado => Set::empty(),
        Chain::Oasis => Set::empty(),
        Chain::Emerald => Set::empty(),
        Chain::EmeraldTestnet => Set::empty(),
        Chain::Avalanche => Set::empty(),
        Chain::AvalancheFuji => set!["fuji"@, "avalanche-fuji"@],
        Chain::Celo => Set::empty(),
        Chain::CeloAlfajores => Set::empty(),
        Chain::CeloBaklava => Set::empty(),
        Chain::Aurora => Set::empty(),
        Chain::AuroraTestnet => Set::empty(),
    }
}

/// A string names a chain when it is its canonical name or one of
/// its aliases.
pub open spec fn resolves_to(s: Seq<char>, c: Chain) -> bool {
    s == canonical_name(c) || aliases_of(c).contains(s)
}

/// The chain a string parses to, if any: an exact, case-sensitive
/// match against each chain's canonical name and aliases.
pub open spec fn chain_of_name(s: Seq<char>) -> Option<Chain> {
    if s == "mainnet"@ {
        Some(Chain::Mainnet)
    } else if s == "morden"@ {
        Some(Chain::Morden)
    } else if s == "ropsten"@ {
        Some(Chain::Ropsten)
    } else if s == "rinkeby"@ {
        Some(Chain::Rinkeby)
    } else if s == "goerli"@ {
        Some(Chain::Goerli)
    } else if s == "kovan"@ {
        Some(Chain::Kovan)
    } else if s == "sepolia"@ {
        Some(Chain::Sepolia)
    } else if s == "optimism"@ {
        Some(Chain::Optimism)
    } else if s == "optimism-kovan"@ {
        Some(Chain::OptimismKovan)
    } else if s == "optimism-goerli"@ {
        Some(Chain::OptimismGoerli)
    } else if s == "arbitrum"@ {
        Some(Chain::Arbitrum)
    } else if s == "arbitrum-testnet"@ {
        Some(Chain::ArbitrumTestnet)
    } else if s == "arbitrum-goerli"@ {
        Some(Chain::ArbitrumGoerli)
    } else if s == "arbitrum-nova"@ {
        Some(Chain::ArbitrumNova)
    } else if s == "cronos"@ {
        Some(Chain::Cronos)
    } else if s == "cronos-testnet"@ {
        Some(Chain::CronosTestnet)
    } else if s == "rsk"@ {
        Some(Chain::Rsk)
    } else if s == "binance-smart-chain"@ || s == "bsc"@ {
        Some(Chain::BinanceSmartChain)
    } else if s == "binance-smart-chain-testnet"@ || s == "bsc-testnet"@ {
        Some(Chain::BinanceSmartChainTestnet)
    } else if s == "poa"@ {
        Some(Chain::Poa)
    } else if s == "sokol"@ {
        Some(Chain::Sokol)
    } else if s == "x-dai"@ || s == "gnosis"@ || s == "xdai"@ || s == "gnosis-chain"@ {
        Some(Chain::XDai)
    } else if s == "polygon"@ {
        Some(Chain::Polygon)
    } else if s == "polygon-mumbai"@ || s == "mumbai"@ {
        Some(Chain::PolygonMumbai)
    } else if s == "fantom"@ {
        Some(Chain::Fantom)
    } else if s == "fantom-testnet"@ {
        Some(Chain::FantomTestnet)
    } else if s == "moonbeam"@ {
        Some(Chain::Moonbeam)
    } else if s == "moonbeam-dev"@ {
        Some(Chain::MoonbeamDev)
    } else if s == "moonriver"@ {
        Some(Chain::Moonriver)
    } else if s == "moonbase"@ {
        Some(Chain::Moonbase)
    } else if s == "dev"@ {
        Some(Chain::Dev)
    } else if s == "anvil-hardhat"@ || s == "anvil"@ || s == "hardhat"@ {
        Some(Chain::AnvilHardhat)
    } else if s == "evmos"@ {
        Some(Chain::Evmos)
    } else if s == "evmos-testnet"@ {
        Some(Chain::EvmosTestnet)
    } else if s == "chiado"@ {
        Some(Chain::Chiado)
    } else if s == "oasis"@ {
        Some(Chain::Oasis)
    } else if s == "emerald"@ {
        Some(Chain::Emerald)
    } else if s == "emerald-testnet"@ {
        Some(Chain::EmeraldTestnet)
    } else if s == "avalanche"@ {
        Some(Chain::Avalanche)
    } else if s == "avalanche-fuji"@ || s == "fuji"@ {
        Some(Chain::AvalancheFuji)
    } else if s == "celo"@ {
        Some(Chain::Celo)
    } else if s == "celo-alfajores"@ {
        Some(Chain::CeloAlfajores)
    } else if s == "celo-baklava"@ {
        Some(Chain::CeloBaklava)
    } else if s == "aurora"@ {
        Some(Chain::Aurora)
    } else if s == "aurora-testnet"@ {
        Some(Chain::AuroraTestnet)
    } else {
        None
    }
}

/// Character-for-character string equality, proved against the
/// string views.
fn str_eq(a: &str, b: &str) -> (r: bool)
    ensures
        r == (a@ == b@),
{
    let alen = a.unicode_len();
    let blen = b.unicode_len();
    if alen != blen {
        return false;
    }
    let mut i: usize = 0;
    while i < alen
        invariant
            i <= alen,
            alen == a@.len(),
            blen == b@.len(),
            alen == blen,
            forall|j: int| 0 <= j < i ==> a@[j] == b@[j],
        decreases alen - i,
    {
        if a.get_char(i) != b.get_char(i) {
            return false;
        }
        i = i + 1;
    }
    proof {
        assert(a@ =~= b@);
    }
    true
}

impl Chain {
    /// The chain's canonical name, the form used for display and
    /// serialization. Never an alias.
    pub fn name(&self) -> (r: &'static str)
        ensures
            r@ == canonical_name(*self),
    {
        match *self {
            Chain::Mainnet => "mainnet",
            Chain::Morden => "morden",
            Chain::Ropsten => "ropsten",
            Chain::Rinkeby => "rinkeby",
            Chain::Goerli => "goerli",
            Chain::Kovan => "kovan",
            Chain::Sepolia => "sepolia",
            Chain::Optimism => "optimism",
            Chain::OptimismKovan => "optimism-kovan",
            Chain::OptimismGoerli => "optimism-goerli",
            Chain::Arbitrum => "arbitrum",
            Chain::ArbitrumTestnet => "arbitrum-testnet",
            Chain::ArbitrumGoerli => "arbitrum-goerli",
            Chain::ArbitrumNova => "arbitrum-nova",
            Chain::Cronos => "cronos",
            Chain::CronosTestnet => "cronos-testnet",
            Chain::Rsk => "rsk",
            Chain::BinanceSmartChain => "binance-smart-chain",
            Chain::BinanceSmartChainTestnet => "binance-smart-chain-testnet",
            Chain::Poa => "poa",
            Chain::Sokol => "sokol",
            Chain::XDai => "x-dai",
            Chain::Polygon => "polygon",
            Chain::PolygonMumbai => "polygon-mumbai",
            Chain::Fantom => "fantom",
            Chain::FantomTestnet => "fantom-testnet",
            Chain::Moonbeam => "moonbeam",
            Chain::MoonbeamDev => "moonbeam-dev",
            Chain::Moonriver => "moonriver",
            Chain::Moonbase => "moonbase",
            Chain::Dev => "dev",
            Chain::AnvilHardhat => "anvil-hardhat",
            Chain::Evmos => "evmos",
            Chain::EvmosTestnet => "evmos-testnet",
            Chain::Chiado => "chiado",
            Chain::Oasis => "oasis",
            Chain::Emerald => "emerald",
            Chain::EmeraldTestnet => "emerald-testnet",
            Chain::Avalanche => "avalanche",
            Chain::AvalancheFuji => "avalanche-fuji",
            Chain::Celo => "celo",
            Chain::CeloAlfajores => "celo-alfajores",
            Chain::CeloBaklava => "celo-baklava",
            Chain::Aurora => "aurora",
            Chain::AuroraTestnet => "aurora-testnet",
        }
    }

    /// Parses a chain from its canonical name or any alias;
    /// case-sensitive, exact match. Fails with the rejected string
    /// when nothing matches.
    pub fn parse(text: &str) -> (r: Result<Chain, ParseChainError>)
        ensures
            match r {
                Ok(c) => chain_of_name(text@) == Some(c),
                Err(e) => chain_of_name(text@) is None && (e matches
                    ParseChainError::UnrecognizedName(t) && t@ == text@),
            },
    {
        if str_eq(text, "mainnet") {
            Ok(Chain::Mainnet)
        } else if str_eq(text, "morden") {
            Ok(Chain::Morden)
        } else if str_eq(text, "ropsten") {
            Ok(Chain::Ropsten)
        } else if str_eq(text, "rinkeby") {
            Ok(Chain::Rinkeby)
        } else if str_eq(text, "goerli") {
            Ok(Chain::Goerli)
        } else if str_eq(text, "kovan") {
            Ok(Chain::Kovan)
        } else if str_eq(text, "sepolia") {
            Ok(Chain::Sepolia)
        } else if str_eq(text, "optimism") {
            Ok(Chain::Optimism)
        } else if str_eq(text, "optimism-kovan") {
            Ok(Chain::OptimismKovan)
        } else if str_eq(text, "optimism-goerli") {
            Ok(Chain::OptimismGoerli)
        } else if str_eq(text, "arbitrum") {
            Ok(Chain::Arbitrum)
        } else if str_eq(text, "arbitrum-testnet") {
            Ok(Chain::ArbitrumTestnet)
        } else if str_eq(text, "arbitrum-goerli") {
            Ok(Chain::ArbitrumGoerli)
        } else if str_eq(text, "arbitrum-nova") {
            Ok(Chain::ArbitrumNova)
        } else if str_eq(text, "cronos") {
            Ok(Chain::Cronos)
        } else if str_eq(text, "cronos-testnet") {
            Ok(Chain::CronosTestnet)
        } else if str_eq(text, "rsk") {
            Ok(Chain::Rsk)
        } else if str_eq(text, "binance-smart-chain") || str_eq(text, "bsc") {
            Ok(Chain::BinanceSmartChain)
        } else if str_eq(text, "binance-smart-chain-testnet") || str_eq(text, "bsc-testnet") {
            Ok(Chain::BinanceSmartChainTestnet)
        } else if str_eq(text, "poa") {
            Ok(Chain::Poa)
        } else if str_eq(text, "sokol") {
            Ok(Chain::Sokol)
        } else if str_eq(text, "x-dai") || str_eq(text, "gnosis") || str_eq(text, "xdai") || str_eq(text, "gnosis-chain") {
            Ok(Chain::XDai)
        } else if str_eq(text, "polygon") {
            Ok(Chain::Polygon)
        } else if str_eq(text, "polygon-mumbai") || str_eq(text, "mumbai") {
            Ok(Chain::PolygonMumbai)
        } else if str_eq(text, "fantom") {
            Ok(Chain::Fantom)
        } else if str_eq(text, "fantom-testnet") {
            Ok(Chain::FantomTestnet)
        } else if str_eq(text, "moonbeam") {
            Ok(Chain::Moonbeam)
        } else if str_eq(text, "moonbeam-dev") {
            Ok(Chain::MoonbeamDev)
        } else if str_eq(text, "moonriver") {
            Ok(Chain::Moonriver)
        } else if str_eq(text, "moonbase") {
            Ok(Chain::Moonbase)
        } else if str_eq(text, "dev") {
            Ok(Chain::Dev)
        } else if str_eq(text, "anvil-hardhat") || str_eq(text, "anvil") || str_eq(text, "hardhat") {
            Ok(Chain::AnvilHardhat)
        } else if str_eq(text, "evmos") {
            Ok(Chain::Evmos)
        } else if str_eq(text, "evmos-testnet") {
            Ok(Chain::EvmosTestnet)
        } else if str_eq(text, "chiado") {
            Ok(Chain::Chiado)
        } else if str_eq(text, "oasis") {
            Ok(Chain::Oasis)
        } else if str_eq(text, "emerald") {
            Ok(Chain::Emerald)
        } else if str_eq(text, "emerald-testnet") {
            Ok(Chain::EmeraldTestnet)
        } else if str_eq(text, "avalanche") {
            Ok(Chain::Avalanche)
        } else if str_eq(text, "avalanche-fuji") || str_eq(text, "fuji") {
            Ok(Chain::AvalancheFuji)
        } else if str_eq(text, "celo") {
            Ok(Chain::Celo)
        } else if str_eq(text, "celo-alfajores") {
            Ok(Chain::CeloAlfajores)
        } else if str_eq(text, "celo-baklava") {
            Ok(Chain::CeloBaklava)
        } else if str_eq(text, "aurora") {
            Ok(Chain::Aurora)
        } else if str_eq(text, "aurora-testnet") {
            Ok(Chain::AuroraTestnet)
        } else {
            Err(ParseChainError::UnrecognizedName(text.to_owned()))
        }
    }
}

// The length and the characters of every string in the parse table. With
// these as ground facts, any two distinct table entries can be told apart.
spec fn name_char_facts() -> bool {
    &&& "mainnet"@.len() == 7
    &&& "mainnet"@[0] == 'm'
    &&& "mainnet"@[1] == 'a'
    &&& "mainnet"@[2] == 'i'
    &&& "mainnet"@[3] == 'n'
    &&& "mainnet"@[4] == 'n'
    &&& "mainnet"@[5] == 'e'
    &&& "mainnet"@[6] == 't'
    &&& "morden"@.len() == 6
    &&& "morden"@[0] == 'm'
    &&& "morden"@[1] == 'o'
    &&& "morden"@[2] == 'r'
    &&& "morden"@[3] == 'd'
    &&& "morden"@[4] == 'e'
    &&& "morden"@[5] == 'n'
    &&& "ropsten"@.len() == 7
    &&& "ropsten"@[0] == 'r'
    &&& "ropsten"@[1] == 'o'
    &&& "ropsten"@[2] == 'p'
    &&& "ropsten"@[3] == 's'
    &&& "ropsten"@[4] == 't'
    &&& "ropsten"@[5] == 'e'
    &&& "ropsten"@[6] == 'n'
    &&& "rinkeby"@.len() == 7
    &&& "rinkeby"@[0] == 'r'
    &&& "rinkeby"@[1] == 'i'
    &&& "rinkeby"@[2] == 'n'
    &&& "rinkeby"@[3] == 'k'
    &&& "rinkeby"@[4] == 'e'
    &&& "rinkeby"@[5] == 'b'
    &&& "rinkeby"@[6] == 'y'
    &&& "goerli"@.len() == 6
    &&& "goerli"@[0] == 'g'
    &&& "goerli"@[1] == 'o'
    &&& "goerli"@[2] == 'e'
    &&& "goerli"@[3] == 'r'
    &&& "goerli"@[4] == 'l'
    &&& "goerli"@[5] == 'i'
    &&& "kovan"@.len() == 5
    &&& "kovan"@[0] == 'k'
    &&& "kovan"@[1] == 'o'
    &&& "kovan"@[2] == 'v'
    &&& "kovan"@[3] == 'a'
    &&& "kovan"@[4] == 'n'
    &&& "sepolia"@.len() == 7
    &&& "sepolia"@[0] == 's'
    &&& "sepolia"@[1] == 'e'
    &&& "sepolia"@[2] == 'p'
    &&& "sepolia"@[3] == 'o'
    &&& "sepolia"@[4] == 'l'
    &&& "sepolia"@[5] == 'i'
    &&& "sepolia"@[6] == 'a'
    &&& "optimism"@.len() == 8
    &&& "optimism"@[0] == 'o'
    &&& "optimism"@[1] == 'p'
    &&& "optimism"@[2] == 't'
    &&& "optimism"@[3] == 'i'
    &&& "optimism"@[4] == 'm'
    &&& "optimism"@[5] == 'i'
    &&& "optimism"@[6] == 's'
    &&& "optimism"@[7] == 'm'
    &&& "optimism-kovan"@.len() == 14
    &&& "optimism-kovan"@[0] == 'o'
    &&& "optimism-kovan"@[1] == 'p'
    &&& "optimism-kovan"@[2] == 't'
    &&& "optimism-kovan"@[3] == 'i'
    &&& "optimism-kovan"@[4] == 'm'
    &&& "optimism-kovan"@[5] == 'i'
    &&& "optimism-kovan"@[6] == 's'
    &&& "optimism-kovan"@[7] == 'm'
    &&& "optimism-kovan"@[8] == '-'
    &&& "optimism-kovan"@[9] == 'k'
    &&& "optimism-kovan"@[10] == 'o'
    &&& "optimism-kovan"@[11] == 'v'
    &&& "optimism-kovan"@[12] == 'a'
    &&& "optimism-kovan"@[13] == 'n'
    &&& "optimism-goerli"@.len() == 15
    &&& "optimism-goerli"@[0] == 'o'
    &&& "optimism-goerli"@[1] == 'p'
    &&& "optimism-goerli"@[2] == 't'
    &&& "optimism-goerli"@[3] == 'i'
    &&& "optimism-goerli"@[4] == 'm'
    &&& "optimism-goerli"@[5] == 'i'
    &&& "optimism-goerli"@[6] == 's'
    &&& "optimism-goerli"@[7] == 'm'
    &&& "optimism-goerli"@[8] == '-'
    &&& "optimism-goerli"@[9] == 'g'
    &&& "optimism-goerli"@[10] == 'o'
    &&& "optimism-goerli"@[11] == 'e'
    &&& "optimism-goerli"@[12] == 'r'
    &&& "optimism-goerli"@[13] == 'l'
    &&& "optimism-goerli"@[14] == 'i'
    &&& "arbitrum"@.len() == 8
    &&& "arbitrum"@[0] == 'a'
    &&& "arbitrum"@[1] == 'r'
    &&& "arbitrum"@[2] == 'b'
    &&& "arbitrum"@[3] == 'i'
    &&& "arbitrum"@[4] == 't'
    &&& "arbitrum"@[5] == 'r'
    &&& "arbitrum"@[6] == 'u'
    &&& "arbitrum"@[7] == 'm'
    &&& "arbitrum-testnet"@.len() == 16
    &&& "arbitrum-testnet"@[0] == 'a'
    &&& "arbitrum-testnet"@[1] == 'r'
    &&& "arbitrum-testnet"@[2] == 'b'
    &&& "arbitrum-testnet"@[3] == 'i'
    &&& "arbitrum-testnet"@[4] == 't'
    &&& "arbitrum-testnet"@[5] == 'r'
    &&& "arbitrum-testnet"@[6] == 'u'
    &&& "arbitrum-testnet"@[7] == 'm'
    &&& "arbitrum-testnet"@[8] == '-'
    &&& "arbitrum-testnet"@[9] == 't'
    &&& "arbitrum-testnet"@[10] == 'e'
    &&& "arbitrum-testnet"@[11] == 's'
    &&& "arbitrum-testnet"@[12] == 't'
    &&& "arbitrum-testnet"@[13] == 'n'
    &&& "arbitrum-testnet"@[14] == 'e'
    &&& "arbitrum-testnet"@[15] == 't'
    &&& "arbitrum-goerli"@.len() == 15
    &&& "arbitrum-goerli"@[0] == 'a'
    &&& "arbitrum-goerli"@[1] == 'r'
    &&& "arbitrum-goerli"@[2] == 'b'
    &&& "arbitrum-goerli"@[3] == 'i'
    &&& "arbitrum-goerli"@[4] == 't'
    &&& "arbitrum-goerli"@[5] == 'r'
    &&& "arbitrum-goerli"@[6] == 'u'
    &&& "arbitrum-goerli"@[7] == 'm'
    &&& "arbitrum-goerli"@[8] == '-'
    &&& "arbitrum-goerli"@[9] == 'g'
    &&& "arbitrum-goerli"@[10] == 'o'
    &&& "arbitrum-goerli"@[11] == 'e'
    &&& "arbitrum-goerli"@[12] == 'r'
    &&& "arbitrum-goerli"@[13] == 'l'
    &&& "arbitrum-goerli"@[14] == 'i'
    &&& "arbitrum-nova"@.len() == 13
    &&& "arbitrum-nova"@[0] == 'a'
    &&& "arbitrum-nova"@[1] == 'r'
    &&& "arbitrum-nova"@[2] == 'b'
    &&& "arbitrum-nova"@[3] == 'i'
    &&& "arbitrum-nova"@[4] == 't'
    &&& "arbitrum-nova"@[5] == 'r'
    &&& "arbitrum-nova"@[6] == 'u'
    &&& "arbitrum-nova"@[7] == 'm'
    &&& "arbitrum-nova"@[8] == '-'
    &&& "arbitrum-nova"@[9] == 'n'
    &&& "arbitrum-nova"@[10] == 'o'
    &&& "arbitrum-nova"@[11] == 'v'
    &&& "arbitrum-nova"@[12] == 'a'
    &&& "cronos"@.len() == 6
    &&& "cronos"@[0] == 'c'
    &&& "cronos"@[1] == 'r'
    &&& "cronos"@[2] == 'o'
    &&& "cronos"@[3] == 'n'
    &&& "cronos"@[4] == 'o'
    &&& "cronos"@[5] == 's'
    &&& "cronos-testnet"@.len() == 14
    &&& "cronos-testnet"@[0] == 'c'
    &&& "cronos-testnet"@[1] == 'r'
    &&& "cronos-testnet"@[2] == 'o'
    &&& "cronos-testnet"@[3] == 'n'
    &&& "cronos-testnet"@[4] == 'o'
    &&& "cronos-testnet"@[5] == 's'
    &&& "cronos-testnet"@[6] == '-'
    &&& "cronos-testnet"@[7] == 't'
    &&& "cronos-testnet"@[8] == 'e'
    &&& "cronos-testnet"@[9] == 's'
    &&& "cronos-testnet"@[10] == 't'
    &&& "cronos-testnet"@[11] == 'n'
    &&& "cronos-testnet"@[12] == 'e'
    &&& "cronos-testnet"@[13] == 't'
    &&& "rsk"@.len() == 3
    &&& "rsk"@[0] == 'r'
    &&& "rsk"@[1] == 's'
    &&& "rsk"@[2] == 'k'
    &&& "binance-smart-chain"@.len() == 19
    &&& "binance-smart-chain"@[0] == 'b'
    &&& "binance-smart-chain"@[1] == 'i'
    &&& "binance-smart-chain"@[2] == 'n'
    &&& "binance-smart-chain"@[3] == 'a'
    &&& "binance-smart-chain"@[4] == 'n'
    &&& "binance-smart-chain"@[5] == 'c'
    &&& "binance-smart-chain"@[6] == 'e'
    &&& "binance-smart-chain"@[7] == '-'
    &&& "binance-smart-chain"@[8] == 's'
    &&& "binance-smart-chain"@[9] == 'm'
    &&& "binance-smart-chain"@[10] == 'a'
    &&& "binance-smart-chain"@[11] == 'r'
    &&& "binance-smart-chain"@[12] == 't'
    &&& "binance-smart-chain"@[13] == '-'
    &&& "binance-smart-chain"@[14] == 'c'
    &&& "binance-smart-chain"@[15] == 'h'
    &&& "binance-smart-chain"@[16] == 'a'
    &&& "binance-smart-chain"@[17] == 'i'
    &&& "binance-smart-chain"@[18] == 'n'
    &&& "bsc"@.len() == 3
    &&& "bsc"@[0] == 'b'
    &&& "bsc"@[1] == 's'
    &&& "bsc"@[2] == 'c'
    &&& "binance-smart-chain-testnet"@.len() == 27
    &&& "binance-smart-chain-testnet"@[0] == 'b'
    &&& "binance-smart-chain-testnet"@[1] == 'i'
    &&& "binance-smart-chain-testnet"@[2] == 'n'
    &&& "binance-smart-chain-testnet"@[3] == 'a'
    &&& "binance-smart-chain-testnet"@[4] == 'n'
    &&& "binance-smart-chain-testnet"@[5] == 'c'
    &&& "binance-smart-chain-testnet"@[6] == 'e'
    &&& "binance-smart-chain-testnet"@[7] == '-'
    &&& "binance-smart-chain-testnet"@[8] == 's'
    &&& "binance-smart-chain-testnet"@[9] == 'm'
    &&& "binance-smart-chain-testnet"@[10] == 'a'
    &&& "binance-smart-chain-testnet"@[11] == 'r'
    &&& "binance-smart-chain-testnet"@[12] == 't'
    &&& "binance-smart-chain-testnet"@[13] == '-'
    &&& "binance-smart-chain-testnet"@[14] == 'c'
    &&& "binance-smart-chain-testnet"@[15] == 'h'
    &&& "binance-smart-chain-testnet"@[16] == 'a'
    &&& "binance-smart-chain-testnet"@[17] == 'i'
    &&& "binance-smart-chain-testnet"@[18] == 'n'
    &&& "binance-smart-chain-testnet"@[19] == '-'
    &&& "binance-smart-chain-testnet"@[20] == 't'
    &&& "binance-smart-chain-testnet"@[21] == 'e'
    &&& "binance-smart-chain-testnet"@[22] == 's'
    &&& "binance-smart-chain-testnet"@[23] == 't'
    &&& "binance-smart-chain-testnet"@[24] == 'n'
    &&& "binance-smart-chain-testnet"@[25] == 'e'
    &&& "binance-smart-chain-testnet"@[26] == 't'
    &&& "bsc-testnet"@.len() == 11
    &&& "bsc-testnet"@[0] == 'b'
    &&& "bsc-testnet"@[1] == 's'
    &&& "bsc-testnet"@[2] == 'c'
    &&& "bsc-testnet"@[3] == '-'
    &&& "bsc-testnet"@[4] == 't'
    &&& "bsc-testnet"@[5] == 'e'
    &&& "bsc-testnet"@[6] == 's'
    &&& "bsc-testnet"@[7] == 't'
    &&& "bsc-testnet"@[8] == 'n'
    &&& "bsc-testnet"@[9] == 'e'
    &&& "bsc-testnet"@[10] == 't'
    &&& "poa"@.len() == 3
    &&& "poa"@[0] == 'p'
    &&& "poa"@[1] == 'o'
    &&& "poa"@[2] == 'a'
    &&& "sokol"@.len() == 5
    &&& "sokol"@[0] == 's'
    &&& "sokol"@[1] == 'o'
    &&& "sokol"@[2] == 'k'
    &&& "sokol"@[3] == 'o'
    &&& "sokol"@[4] == 'l'
    &&& "x-dai"@.len() == 5
    &&& "x-dai"@[0] == 'x'
    &&& "x-dai"@[1] == '-'
    &&& "x-dai"@[2] == 'd'
    &&& "x-dai"@[3] == 'a'
    &&& "x-dai"@[4] == 'i'
    &&& "gnosis"@.len() == 6
    &&& "gnosis"@[0] == 'g'
    &&& "gnosis"@[1] == 'n'
    &&& "gnosis"@[2] == 'o'
    &&& "gnosis"@[3] == 's'
    &&& "gnosis"@[4] == 'i'
    &&& "gnosis"@[5] == 's'
    &&& "xdai"@.len() == 4
    &&& "xdai"@[0] == 'x'
    &&& "xdai"@[1] == 'd'
    &&& "xdai"@[2] == 'a'
    &&& "xdai"@[3] == 'i'
    &&& "gnosis-chain"@.len() == 12
    &&& "gnosis-chain"@[0] == 'g'
    &&& "gnosis-chain"@[1] == 'n'
    &&& "gnosis-chain"@[2] == 'o'
    &&& "gnosis-chain"@[3] == 's'
    &&& "gnosis-chain"@[4] == 'i'
    &&& "gnosis-chain"@[5] == 's'
    &&& "gnosis-chain"@[6] == '-'
    &&& "gnosis-chain"@[7] == 'c'
    &&& "gnosis-chain"@[8] == 'h'
    &&& "gnosis-chain"@[9] == 'a'
    &&& "gnosis-chain"@[10] == 'i'
    &&& "gnosis-chain"@[11] == 'n'
    &&& "polygon"@.len() == 7
    &&& "polygon"@[0] == 'p'
    &&& "polygon"@[1] == 'o'
    &&& "polygon"@[2] == 'l'
    &&& "polygon"@[3] == 'y'
    &&& "polygon"@[4] == 'g'
    &&& "polygon"@[5] == 'o'
    &&& "polygon"@[6] == 'n'
    &&& "polygon-mumbai"@.len() == 14
    &&& "polygon-mumbai"@[0] == 'p'
    &&& "polygon-mumbai"@[1] == 'o'
    &&& "polygon-mumbai"@[2] == 'l'
    &&& "polygon-mumbai"@[3] == 'y'
    &&& "polygon-mumbai"@[4] == 'g'
    &&& "polygon-mumbai"@[5] == 'o'
    &&& "polygon-mumbai"@[6] == 'n'
    &&& "polygon-mumbai"@[7] == '-'
    &&& "polygon-mumbai"@[8] == 'm'
    &&& "polygon-mumbai"@[9] == 'u'
    &&& "polygon-mumbai"@[10] == 'm'
    &&& "polygon-mumbai"@[11] == 'b'
    &&& "polygon-mumbai"@[12] == 'a'
    &&& "polygon-mumbai"@[13] == 'i'
    &&& "mumbai"@.len() == 6
    &&& "mumbai"@[0] == 'm'
    &&& "mumbai"@[1] == 'u'
    &&& "mumbai"@[2] == 'm'
    &&& "mumbai"@[3] == 'b'
    &&& "mumbai"@[4] == 'a'
    &&& "mumbai"@[5] == 'i'
    &&& "fantom"@.len() == 6
    &&& "fantom"@[0] == 'f'
    &&& "fantom"@[1] == 'a'
    &&& "fantom"@[2] == 'n'
    &&& "fantom"@[3] == 't'
    &&& "fantom"@[4] == 'o'
    &&& "fantom"@[5] == 'm'
    &&& "fantom-testnet"@.len() == 14
    &&& "fantom-testnet"@[0] == 'f'
    &&& "fantom-testnet"@[1] == 'a'
    &&& "fantom-testnet"@[2] == 'n'
    &&& "fantom-testnet"@[3] == 't'
    &&& "fantom-testnet"@[4] == 'o'
    &&& "fantom-testnet"@[5] == 'm'
    &&& "fantom-testnet"@[6] == '-'
    &&& "fantom-testnet"@[7] == 't'
    &&& "fantom-testnet"@[8] == 'e'
    &&& "fantom-testnet"@[9] == 's'
    &&& "fantom-testnet"@[10] == 't'
    &&& "fantom-testnet"@[11] == 'n'
    &&& "fantom-testnet"@[12] == 'e'
    &&& "fantom-testnet"@[13] == 't'
    &&& "moonbeam"@.len() == 8
    &&& "moonbeam"@[0] == 'm'
    &&& "moonbeam"@[1] == 'o'
    &&& "moonbeam"@[2] == 'o'
    &&& "moonbeam"@[3] == 'n'
    &&& "moonbeam"@[4] == 'b'
    &&& "moonbeam"@[5] == 'e'
    &&& "moonbeam"@[6] == 'a'
    &&& "moonbeam"@[7] == 'm'
    &&& "moonbeam-dev"@.len() == 12
    &&& "moonbeam-dev"@[0] == 'm'
    &&& "moonbeam-dev"@[1] == 'o'
    &&& "moonbeam-dev"@[2] == 'o'
    &&& "moonbeam-dev"@[3] == 'n'
    &&& "moonbeam-dev"@[4] == 'b'
    &&& "moonbeam-dev"@[5] == 'e'
    &&& "moonbeam-dev"@[6] == 'a'
    &&& "moonbeam-dev"@[7] == 'm'
    &&& "moonbeam-dev"@[8] == '-'
    &&& "moonbeam-dev"@[9] == 'd'
    &&& "moonbeam-dev"@[10] == 'e'
    &&& "moonbeam-dev"@[11] == 'v'
    &&& "moonriver"@.len() == 9
    &&& "moonriver"@[0] == 'm'
    &&& "moonriver"@[1] == 'o'
    &&& "moonriver"@[2] == 'o'
    &&& "moonriver"@[3] == 'n'
    &&& "moonriver"@[4] == 'r'
    &&& "moonriver"@[5] == 'i'
    &&& "moonriver"@[6] == 'v'
    &&& "moonriver"@[7] == 'e'
    &&& "moonriver"@[8] == 'r'
    &&& "moonbase"@.len() == 8
    &&& "moonbase"@[0] == 'm'
    &&& "moonbase"@[1] == 'o'
    &&& "moonbase"@[2] == 'o'
    &&& "moonbase"@[3] == 'n'
    &&& "moonbase"@[4] == 'b'
    &&& "moonbase"@[5] == 'a'
    &&& "moonbase"@[6] == 's'
    &&& "moonbase"@[7] == 'e'
    &&& "dev"@.len() == 3
    &&& "dev"@[0] == 'd'
    &&& "dev"@[1] == 'e'
    &&& "dev"@[2] == 'v'
    &&& "anvil-hardhat"@.len() == 13
    &&& "anvil-hardhat"@[0] == 'a'
    &&& "anvil-hardhat"@[1] == 'n'
    &&& "anvil-hardhat"@[2] == 'v'
    &&& "anvil-hardhat"@[3] == 'i'
    &&& "anvil-hardhat"@[4] == 'l'
    &&& "anvil-hardhat"@[5] == '-'
    &&& "anvil-hardhat"@[6] == 'h'
    &&& "anvil-hardhat"@[7] == 'a'
    &&& "anvil-hardhat"@[8] == 'r'
    &&& "anvil-hardhat"@[9] == 'd'
    &&& "anvil-hardhat"@[10] == 'h'
    &&& "anvil-hardhat"@[11] == 'a'
    &&& "anvil-hardhat"@[12] == 't'
    &&& "anvil"@.len() == 5
    &&& "anvil"@[0] == 'a'
    &&& "anvil"@[1] == 'n'
    &&& "anvil"@[2] == 'v'
    &&& "anvil"@[3] == 'i'
    &&& "anvil"@[4] == 'l'
    &&& "hardhat"@.len() == 7
    &&& "hardhat"@[0] == 'h'
    &&& "hardhat"@[1] == 'a'
    &&& "hardhat"@[2] == 'r'
    &&& "hardhat"@[3] == 'd'
    &&& "hardhat"@[4] == 'h'
    &&& "hardhat"@[5] == 'a'
    &&& "hardhat"@[6] == 't'
    &&& "evmos"@.len() == 5
    &&& "evmos"@[0] == 'e'
    &&& "evmos"@[1] == 'v'
    &&& "evmos"@[2] == 'm'
    &&& "evmos"@[3] == 'o'
    &&& "evmos"@[4] == 's'
    &&& "evmos-testnet"@.len() == 13
    &&& "evmos-testnet"@[0] == 'e'
    &&& "evmos-testnet"@[1] == 'v'
    &&& "evmos-testnet"@[2] == 'm'
    &&& "evmos-testnet"@[3] == 'o'
    &&& "evmos-testnet"@[4] == 's'
    &&& "evmos-testnet"@[5] == '-'
    &&& "evmos-testnet"@[6] == 't'
    &&& "evmos-testnet"@[7] == 'e'
    &&& "evmos-testnet"@[8] == 's'
    &&& "evmos-testnet"@[9] == 't'
    &&& "evmos-testnet"@[10] == 'n'
    &&& "evmos-testnet"@[11] == 'e'
    &&& "evmos-testnet"@[12] == 't'
    &&& "chiado"@.len() == 6
    &&& "chiado"@[0] == 'c'
    &&& "chiado"@[1] == 'h'
    &&& "chiado"@[2] == 'i'
    &&& "chiado"@[3] == 'a'
    &&& "chiado"@[4] == 'd'
    &&& "chiado"@[5] == 'o'
    &&& "oasis"@.len() == 5
    &&& "oasis"@[0] == 'o'
    &&& "oasis"@[1] == 'a'
    &&& "oasis"@[2] == 's'
    &&& "oasis"@[3] == 'i'
    &&& "oasis"@[4] == 's'
    &&& "emerald"@.len() == 7
    &&& "emerald"@[0] == 'e'
    &&& "emerald"@[1] == 'm'
    &&& "emerald"@[2] == 'e'
    &&& "emerald"@[3] == 'r'
    &&& "emerald"@[4] == 'a'
    &&& "emerald"@[5] == 'l'
    &&& "emerald"@[6] == 'd'
    &&& "emerald-testnet"@.len() == 15
    &&& "emerald-testnet"@[0] == 'e'
    &&& "emerald-testnet"@[1] == 'm'
    &&& "emerald-testnet"@[2] == 'e'
    &&& "emerald-testnet"@[3] == 'r'
    &&& "emerald-testnet"@[4] == 'a'
    &&& "emerald-testnet"@[5] == 'l'
    &&& "emerald-testnet"@[6] == 'd'
    &&& "emerald-testnet"@[7] == '-'
    &&& "emerald-testnet"@[8] == 't'
    &&& "emerald-testnet"@[9] == 'e'
    &&& "emerald-testnet"@[10] == 's'
    &&& "emerald-testnet"@[11] == 't'
    &&& "emerald-testnet"@[12] == 'n'
    &&& "emerald-testnet"@[13] == 'e'
    &&& "emerald-testnet"@[14] == 't'
    &&& "avalanche"@.len() == 9
    &&& "avalanche"@[0] == 'a'
    &&& "avalanche"@[1] == 'v'
    &&& "avalanche"@[2] == 'a'
    &&& "avalanche"@[3] == 'l'
    &&& "avalanche"@[4] == 'a'
    &&& "avalanche"@[5] == 'n'
    &&& "avalanche"@[6] == 'c'
    &&& "avalanche"@[7] == 'h'
    &&& "avalanche"@[8] == 'e'
    &&& "avalanche-fuji"@.len() == 14
    &&& "avalanche-fuji"@[0] == 'a'
    &&& "avalanche-fuji"@[1] == 'v'
    &&& "avalanche-fuji"@[2] == 'a'
    &&& "avalanche-fuji"@[3] == 'l'
    &&& "avalanche-fuji"@[4] == 'a'
    &&& "avalanche-fuji"@[5] == 'n'
    &&& "avalanche-fuji"@[6] == 'c'
    &&& "avalanche-fuji"@[7] == 'h'
    &&& "avalanche-fuji"@[8] == 'e'
    &&& "avalanche-fuji"@[9] == '-'
    &&& "avalanche-fuji"@[10] == 'f'
    &&& "avalanche-fuji"@[11] == 'u'
    &&& "avalanche-fuji"@[12] == 'j'
    &&& "avalanche-fuji"@[13] == 'i'
    &&& "fuji"@.len() == 4
    &&& "fuji"@[0] == 'f'
    &&& "fuji"@[1] == 'u'
    &&& "fuji"@[2] == 'j'
    &&& "fuji"@[3] == 'i'
    &&& "celo"@.len() == 4
    &&& "celo"@[0] == 'c'
    &&& "celo"@[1] == 'e'
    &&& "celo"@[2] == 'l'
    &&& "celo"@[3] == 'o'
    &&& "celo-alfajores"@.len() == 14
    &&& "celo-alfajores"@[0] == 'c'
    &&& "celo-alfajores"@[1] == 'e'
    &&& "celo-alfajores"@[2] == 'l'
    &&& "celo-alfajores"@[3] == 'o'
    &&& "celo-alfajores"@[4] == '-'
    &&& "celo-alfajores"@[5] == 'a'
    &&& "celo-alfajores"@[6] == 'l'
    &&& "celo-alfajores"@[7] == 'f'
    &&& "celo-alfajores"@[8] == 'a'
    &&& "celo-alfajores"@[9] == 'j'
    &&& "celo-alfajores"@[10] == 'o'
    &&& "celo-alfajores"@[11] == 'r'
    &&& "celo-alfajores"@[12] == 'e'
    &&& "celo-alfajores"@[13] == 's'
    &&& "celo-baklava"@.len() == 12
    &&& "celo-baklava"@[0] == 'c'
    &&& "celo-baklava"@[1] == 'e'
    &&& "celo-baklava"@[2] == 'l'
    &&& "celo-baklava"@[3] == 'o'
    &&& "celo-baklava"@[4] == '-'
    &&& "celo-baklava"@[5] == 'b'
    &&& "celo-baklava"@[6] == 'a'
    &&& "celo-baklava"@[7] == 'k'
    &&& "celo-baklava"@[8] == 'l'
    &&& "celo-baklava"@[9] == 'a'
    &&& "celo-baklava"@[10] == 'v'
    &&& "celo-baklava"@[11] == 'a'
    &&& "aurora"@.len() == 6
    &&& "aurora"@[0] == 'a'
    &&& "aurora"@[1] == 'u'
    &&& "aurora"@[2] == 'r'
    &&& "aurora"@[3] == 'o'
    &&& "aurora"@[4] == 'r'
    &&& "aurora"@[5] == 'a'
    &&& "aurora-testnet"@.len() == 14
    &&& "aurora-testnet"@[0] == 'a'
    &&& "aurora-testnet"@[1] == 'u'
    &&& "aurora-testnet"@[2] == 'r'
    &&& "aurora-testnet"@[3] == 'o'
    &&& "aurora-testnet"@[4] == 'r'
    &&& "aurora-testnet"@[5] == 'a'
    &&& "aurora-testnet"@[6] == '-'
    &&& "aurora-testnet"@[7] == 't'
    &&& "aurora-testnet"@[8] == 'e'
    &&& "aurora-testnet"@[9] == 's'
    &&& "aurora-testnet"@[10] == 't'
    &&& "aurora-testnet"@[11] == 'n'
    &&& "aurora-testnet"@[12] == 'e'
    &&& "aurora-testnet"@[13] == 't'
}

proof fn lemma_name_char_facts()
    ensures
        name_char_facts(),
{
    reveal_strlit("mainnet");
    reveal_strlit("morden");
    reveal_strlit("ropsten");
    reveal_strlit("rinkeby");
    reveal_strlit("goerli");
    reveal_strlit("kovan");
    reveal_strlit("sepolia");
    reveal_strlit("optimism");
    reveal_strlit("optimism-kovan");
    reveal_strlit("optimism-goerli");
    reveal_strlit("arbitrum");
    reveal_strlit("arbitrum-testnet");
    reveal_strlit("arbitrum-goerli");
    reveal_strlit("arbitrum-nova");
    reveal_strlit("cronos");
    reveal_strlit("cronos-testnet");
    reveal_strlit("rsk");
    reveal_strlit("binance-smart-chain");
    reveal_strlit("bsc");
    reveal_strlit("binance-smart-chain-testnet");
    reveal_strlit("bsc-testnet");
    reveal_strlit("poa");
    reveal_strlit("sokol");
    reveal_strlit("x-dai");
    reveal_strlit("gnosis");
    reveal_strlit("xdai");
    reveal_strlit("gnosis-chain");
    reveal_strlit("polygon");
    reveal_strlit("polygon-mumbai");
    reveal_strlit("mumbai");
    reveal_strlit("fantom");
    reveal_strlit("fantom-testnet");
    reveal_strlit("moonbeam");
    reveal_strlit("moonbeam-dev");
    reveal_strlit("moonriver");
    reveal_strlit("moonbase");
    reveal_strlit("dev");
    reveal_strlit("anvil-hardhat");
    reveal_strlit("anvil");
    reveal_strlit("hardhat");
    reveal_strlit("evmos");
    reveal_strlit("evmos-testnet");
    reveal_strlit("chiado");
    reveal_strlit("oasis");
    reveal_strlit("emerald");
    reveal_strlit("emerald-testnet");
    reveal_strlit("avalanche");
    reveal_strlit("avalanche-fuji");
    reveal_strlit("fuji");
    reveal_strlit("celo");
    reveal_strlit("celo-alfajores");
    reveal_strlit("celo-baklava");
    reveal_strlit("aurora");
    reveal_strlit("aurora-testnet");
}

// The parse table's entries each resolve to their own chain, stated in
// blocks so that each proof stays small.
spec fn resolution_block0() -> bool {
    &&& chain_of_name("mainnet"@) == Some(Chain::Mainnet)
    &&& chain_of_name("morden"@) == Some(Chain::Morden)
    &&& chain_of_name("ropsten"@) == Some(Chain::Ropsten)
    &&& chain_of_name("rinkeby"@) == Some(Chain::Rinkeby)
    &&& chain_of_name("goerli"@) == Some(Chain::Goerli)
    &&& chain_of_name("kovan"@) == Some(Chain::Kovan)
    &&& chain_of_name("sepolia"@) == Some(Chain::Sepolia)
    &&& chain_of_name("optimism"@) == Some(Chain::Optimism)
    &&& chain_of_name("optimism-kovan"@) == Some(Chain::OptimismKovan)
    &&& chain_of_name("optimism-goerli"@) == Some(Chain::OptimismGoerli)
}

#[verifier::rlimit(60)]
proof fn lemma_resolution_block0()
    ensures
        resolution_block0(),
{
    lemma_name_char_facts();
}

spec fn resolution_block1() -> bool {
    &&& chain_of_name("arbitrum"@) == Some(Chain::Arbitrum)
    &&& chain_of_name("arbitrum-testnet"@) == Some(Chain::ArbitrumTestnet)
    &&& chain_of_name("arbitrum-goerli"@) == Some(Chain::ArbitrumGoerli)
    &&& chain_of_name("arbitrum-nova"@) == Some(Chain::ArbitrumNova)
    &&& chain_of_name("cronos"@) == Some(Chain::Cronos)
    &&& chain_of_name("cronos-testnet"@) == Some(Chain::CronosTestnet)
    &&& chain_of_name("rsk"@) == Some(Chain::Rsk)
    &&& chain_of_name("binance-smart-chain"@) == Some(Chain::BinanceSmartChain)
    &&& chain_of_name("bsc"@) == Some(Chain::BinanceSmartChain)
    &&& chain_of_name("binance-smart-chain-testnet"@) == Some(Chain::BinanceSmartChainTestnet)
}

#[verifier::rlimit(60)]
proof fn lemma_resolution_block1()
    ensures
        resolution_block1(),
{
    lemma_name_char_facts();
}

spec fn resolution_block2() -> bool {
    &&& chain_of_name("bsc-testnet"@) == Some(Chain::BinanceSmartChainTestnet)
    &&& chain_of_name("poa"@) == Some(Chain::Poa)
    &&& chain_of_name("sokol"@) == Some(Chain::Sokol)
    &&& chain_of_name("x-dai"@) == Some(Chain::XDai)
    &&& chain_of_name("gnosis"@) == Some(Chain::XDai)
    &&& chain_of_name("xdai"@) == Some(Chain::XDai)
    &&& chain_of_name("gnosis-chain"@) == Some(Chain::XDai)
    &&& chain_of_name("polygon"@) == Some(Chain::Polygon)
    &&& chain_of_name("polygon-mumbai"@) == Some(Chain::PolygonMumbai)
    &&& chain_of_name("mumbai"@) == Some(Chain::PolygonMumbai)
}

#[verifier::rlimit(60)]
proof fn lemma_resolution_block2()
    ensures
        resolution_block2(),
{
    lemma_name_char_facts();
}

spec fn resolution_block3() -> bool {
    &&& chain_of_name("fantom"@) == Some(Chain::Fantom)
    &&& chain_of_name("fantom-testnet"@) == Some(Chain::FantomTestnet)
    &&& chain_of_name("moonbeam"@) == Some(Chain::Moonbeam)
    &&& chain_of_name("moonbeam-dev"@) == Some(Chain::MoonbeamDev)
    &&& chain_of_name("moonriver"@) == Some(Chain::Moonriver)
    &&& chain_of_name("moonbase"@) == Some(Chain::Moonbase)
    &&& chain_of_name("dev"@) == Some(Chain::Dev)
    &&& chain_of_name("anvil-hardhat"@) == Some(Chain::AnvilHardhat)
    &&& chain_of_name("anvil"@) == Some(Chain::AnvilHardhat)
    &&& chain_of_name("hardhat"@) == Some(Chain::AnvilHardhat)
}

#[verifier::rlimit(60)]
proof fn lemma_resolution_block3()
    ensures
        resolution_block3(),
{
    lemma_name_char_facts();
}

spec fn resolution_block4() -> bool {
    &&& chain_of_name("evmos"@) == Some(Chain::Evmos)
    &&& chain_of_name("evmos-testnet"@) == Some(Chain::EvmosTestnet)
    &&& chain_of_name("chiado"@) == Some(Chain::Chiado)
    &&& chain_of_name("oasis"@) == Some(Chain::Oasis)
    &&& chain_of_name("emerald"@) == Some(Chain::Emerald)
    &&& chain_of_name("emerald-testnet"@) == Some(Chain::EmeraldTestnet)
    &&& chain_of_name("avalanche"@) == Some(Chain::Avalanche)
    &&& chain_of_name("avalanche-fuji"@) == Some(Chain::AvalancheFuji)
    &&& chain_of_name("fuji"@) == Some(Chain::AvalancheFuji)
    &&& chain_of_name("celo"@) == Some(Chain::Celo)
}

#[verifier::rlimit(60)]
proof fn lemma_resolution_block4()
    ensures
        resolution_block4(),
{
    lemma_name_char_facts();
}

spec fn resolution_block5() -> bool {
    &&& chain_of_name("celo-alfajores"@) == Some(Chain::CeloAlfajores)
    &&& chain_of_name("celo-baklava"@) == Some(Chain::CeloBaklava)
    &&& chain_of_name("aurora"@) == Some(Chain::Aurora)
    &&& chain_of_name("aurora-testnet"@) == Some(Chain::AuroraTestnet)
}

#[verifier::rlimit(60)]
proof fn lemma_resolution_block5()
    ensures
        resolution_block5(),
{
    lemma_name_char_facts();
}

/// Law: every string that names a chain, whether its canonical name
/// or one of its aliases, parses to exactly that chain.
#[verifier::rlimit(60)]
pub proof fn lemma_resolution(s: Seq<char>, c: Chain)
    requires
        resolves_to(s, c),
    ensures
        chain_of_name(s) == Some(c),
{
    lemma_resolution_block0();
    lemma_resolution_block1();
    lemma_resolution_block2();
    lemma_resolution_block3();
    lemma_resolution_block4();
    lemma_resolution_block5();
    match c {
        Chain::Mainnet => { assert(s == "mainnet"@); }
        Chain::Morden => { assert(s == "morden"@); }
        Chain::Ropsten => { assert(s == "ropsten"@); }
        Chain::Rinkeby => { assert(s == "rinkeby"@); }
        Chain::Goerli => { assert(s == "goerli"@); }
        Chain::Kovan => { assert(s == "kovan"@); }
        Chain::Sepolia => { assert(s == "sepolia"@); }
        Chain::Optimism => { assert(s == "optimism"@); }
        Chain::OptimismKovan => { assert(s == "optimism-kovan"@); }
        Chain::OptimismGoerli => { assert(s == "optimism-goerli"@); }
        Chain::Arbitrum => { assert(s == "arbitrum"@); }
        Chain::ArbitrumTestnet => { assert(s == "arbitrum-testnet"@); }
        Chain::ArbitrumGoerli => { assert(s == "arbitrum-goerli"@); }
        Chain::ArbitrumNova => { assert(s == "arbitrum-nova"@); }
        Chain::Cronos => { assert(s == "cronos"@); }
        Chain::CronosTestnet => { assert(s == "cronos-testnet"@); }
        Chain::Rsk => { assert(s == "rsk"@); }
        Chain::BinanceSmartChain => { assert(s == "binance-smart-chain"@ || s == "bsc"@); }
        Chain::BinanceSmartChainTestnet => { assert(s == "binance-smart-chain-testnet"@ || s == "bsc-testnet"@); }
        Chain::Poa => { assert(s == "poa"@); }
        Chain::Sokol => { assert(s == "sokol"@); }
        Chain::XDai => { assert(s == "x-dai"@ || s == "gnosis"@ || s == "xdai"@ || s == "gnosis-chain"@); }
        Chain::Polygon => { assert(s == "polygon"@); }
        Chain::PolygonMumbai => { assert(s == "polygon-mumbai"@ || s == "mumbai"@); }
        Chain::Fantom => { assert(s == "fantom"@); }
        Chain::FantomTestnet => { assert(s == "fantom-testnet"@); }
        Chain::Moonbeam => { assert(s == "moonbeam"@); }
        Chain::MoonbeamDev => { assert(s == "moonbeam-dev"@); }
        Chain::Moonriver => { assert(s == "moonriver"@); }
        Chain::Moonbase => { assert(s == "moonbase"@); }
        Chain::Dev => { assert(s == "dev"@); }
        Chain::AnvilHardhat => { assert(s == "anvil-hardhat"@ || s == "anvil"@ || s == "hardhat"@); }
        Chain::Evmos => { assert(s == "evmos"@); }
        Chain::EvmosTestnet => { assert(s == "evmos-testnet"@); }
        Chain::Chiado => { assert(s == "chiado"@); }
        Chain::Oasis => { assert(s == "oasis"@); }
        Chain::Emerald => { assert(s == "emerald"@); }
        Chain::EmeraldTestnet => { assert(s == "emerald-testnet"@); }
        Chain::Avalanche => { assert(s == "avalanche"@); }
        Chain::AvalancheFuji => { assert(s == "avalanche-fuji"@ || s == "fuji"@); }
        Chain::Celo => { assert(s == "celo"@); }
        Chain::CeloAlfajores => { assert(s == "celo-alfajores"@); }
        Chain::CeloBaklava => { assert(s == "celo-baklava"@); }
        Chain::Aurora => { assert(s == "aurora"@); }
        Chain::AuroraTestnet => { assert(s == "aurora-testnet"@); }
    }
}

/// Law: parsing a chain's display form gives back the same chain
/// (name round-trip).
pub proof fn lemma_name_round_trip(c: Chain)
    ensures
        chain_of_name(canonical_name(c)) == Some(c),
{
    lemma_resolution(canonical_name(c), c);
}

/// Law: every documented alias of a chain parses to that chain.
pub proof fn lemma_alias_resolves(a: Seq<char>, c: Chain)
    requires
        aliases_of(c).contains(a),
    ensures
        chain_of_name(a) == Some(c),
{
    lemma_resolution(a, c);
}

/// Law: no string names two different chains; canonical names and
/// aliases are unambiguous across the whole registry.
pub proof fn lemma_no_ambiguity(s: Seq<char>, c1: Chain, c2: Chain)
    requires
        resolves_to(s, c1),
        resolves_to(s, c2),
    ensures
        c1 == c2,
{
    lemma_resolution(s, c1);
    lemma_resolution(s, c2);
}

/// Law: a successful parse only ever returns a chain that the input
/// string actually names.
pub proof fn lemma_parse_sound(s: Seq<char>)
    ensures
        chain_of_name(s) matches Some(c) ==> resolves_to(s, c),
{
}

/// Law: the default chain's canonical name, the string it serializes
/// to, is "mainnet".
pub proof fn lemma_default_name()
    ensures
        canonical_name(Chain::Mainnet) == "mainnet"@,
{
}

} // verus!
