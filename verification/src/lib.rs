use vstd::prelude::*;

pub mod ids;
pub mod metadata;
pub mod names;
pub mod wide;

verus! {

/// An Ethereum EIP-155 chain known to the registry.
///
/// The set of variants is closed: every chain carries a unique numeric id,
/// a unique canonical name, and entries in each metadata table.
#[derive(Clone, Copy, Debug, PartialEq, Eq, PartialOrd, Ord, Hash, Structural)]
pub enum Chain {
    Mainnet,
    Morden,
    Ropsten,
    Rinkeby,
    Goerli,
    Kovan,
    Sepolia,
    Optimism,
    OptimismKovan,
    OptimismGoerli,
    Arbitrum,
    ArbitrumTestnet,
    ArbitrumGoerli,
    ArbitrumNova,
    Cronos,
    CronosTestnet,
    Rsk,
    BinanceSmartChain,
    BinanceSmartChainTestnet,
    Poa,
    Sokol,
    XDai,
    Polygon,
    PolygonMumbai,
    Fantom,
    FantomTestnet,
    Moonbeam,
    MoonbeamDev,
    Moonriver,
    Moonbase,
    Dev,
    AnvilHardhat,
    Evmos,
    EvmosTestnet,
    Chiado,
    Oasis,
    Emerald,
    EmeraldTestnet,
    Avalanche,
    AvalancheFuji,
    Celo,
    CeloAlfajores,
    CeloBaklava,
    Aurora,
    AuroraTestnet,
}

/// Error returned when a numeric value or a string fails to resolve to a chain.
#[derive(Clone, Debug, PartialEq, Eq)]
pub enum ParseChainError {
    /// No chain has this numeric id. For inputs wider than 64 bits the value
    /// reported is the low 64 bits of the input.
    UnknownChainId(u64),
    /// No chain has this string as its canonical name or as an alias.
    UnrecognizedName(String),
}

/// Every chain in the registry, in declaration order.
pub open spec fn variant_list() -> Seq<Chain> {
    seq![Chain::Mainnet, Chain::Morden, Chain::Ropsten, Chain::Rinkeby, Chain::Goerli, Chain::Kovan, Chain::Sepolia, Chain::Optimism, Chain::OptimismKovan, Chain::OptimismGoerli, Chain::Arbitrum, Chain::ArbitrumTestnet, Chain::ArbitrumGoerli, Chain::ArbitrumNova, Chain::Cronos, Chain::CronosTestnet, Chain::Rsk, Chain::BinanceSmartChain, Chain::BinanceSmartChainTestnet, Chain::Poa, Chain::Sokol, Chain::XDai, Chain::Polygon, Chain::PolygonMumbai, Chain::Fantom, Chain::FantomTestnet, Chain::Moonbeam, Chain::MoonbeamDev, Chain::Moonriver, Chain::Moonbase, Chain::Dev, Chain::AnvilHardhat, Chain::Evmos, Chain::EvmosTestnet, Chain::Chiado, Chain::Oasis, Chain::Emerald, Chain::EmeraldTestnet, Chain::Avalanche, Chain::AvalancheFuji, Chain::Celo, Chain::CeloAlfajores, Chain::CeloBaklava, Chain::Aurora, Chain::AuroraTestnet]
}

impl Chain {
    /// The number of chains in the registry.
    pub const COUNT: usize = 45;

    /// Every chain in the registry, in declaration order.
    pub fn variants() -> (r: Vec<Chain>)
        ensures
            r@ == variant_list(),
    {
        let v: Vec<Chain> = vec![Chain::Mainnet, Chain::Morden, Chain::Ropsten, Chain::Rinkeby, Chain::Goerli, Chain::Kovan, Chain::Sepolia, Chain::Optimism, Chain::OptimismKovan, Chain::OptimismGoerli, Chain::Arbitrum, Chain::ArbitrumTestnet, Chain::ArbitrumGoerli, Chain::ArbitrumNova, Chain::Cronos, Chain::CronosTestnet, Chain::Rsk, Chain::BinanceSmartChain, Chain::BinanceSmartChainTestnet, Chain::Poa, Chain::Sokol, Chain::XDai, Chain::Polygon, Chain::PolygonMumbai, Chain::Fantom, Chain::FantomTestnet, Chain::Moonbeam, Chain::MoonbeamDev, Chain::Moonriver, Chain::Moonbase, Chain::Dev, Chain::AnvilHardhat, Chain::Evmos, Chain::EvmosTestnet, Chain::Chiado, Chain::Oasis, Chain::Emerald, Chain::EmeraldTestnet, Chain::Avalanche, Chain::AvalancheFuji, Chain::Celo, Chain::CeloAlfajores, Chain::CeloBaklava, Chain::Aurora, Chain::AuroraTestnet];
        proof {
            assert(v@ =~= variant_list());
        }
        v
    }
}

/// Law: the registry's declared count matches the length of the full variant
/// list, and the list covers every chain.
pub proof fn lemma_variant_list_complete()
    ensures
        variant_list().len() == Chain::COUNT,
        forall|c: Chain| variant_list().contains(c),
{
    assert forall|c: Chain| variant_list().contains(c) by {
        let vs = variant_list();
        match c {
            Chain::Mainnet => assert(vs[0] == c),
            Chain::Morden => assert(vs[1] == c),
            Chain::Ropsten => assert(vs[2] == c),
            Chain::Rinkeby => assert(vs[3] == c),
            Chain::Goerli => assert(vs[4] == c),
            Chain::Kovan => assert(vs[5] == c),
            Chain::Sepolia => assert(vs[6] == c),
            Chain::Optimism => assert(vs[7] == c),
            Chain::OptimismKovan => assert(vs[8] == c),
            Chain::OptimismGoerli => assert(vs[9] == c),
            Chain::Arbitrum => assert(vs[10] == c),
            Chain::ArbitrumTestnet => assert(vs[11] == c),
            Chain::ArbitrumGoerli => assert(vs[12] == c),
            Chain::ArbitrumNova => assert(vs[13] == c),
            Chain::Cronos => assert(vs[14] == c),
            Chain::CronosTestnet => assert(vs[15] == c),
            Chain::Rsk => assert(vs[16] == c),
            Chain::BinanceSmartChain => assert(vs[17] == c),
            Chain::BinanceSmartChainTestnet => assert(vs[18] == c),
            Chain::Poa => assert(vs[19] == c),
            Chain::Sokol => assert(vs[20] == c),
            Chain::XDai => assert(vs[21] == c),
            Chain::Polygon => assert(vs[22] == c),
            Chain::PolygonMumbai => assert(vs[23] == c),
            Chain::Fantom => assert(vs[24] == c),
            Chain::FantomTestnet => assert(vs[25] == c),
            Chain::Moonbeam => assert(vs[26] == c),
            Chain::MoonbeamDev => assert(vs[27] == c),
            Chain::Moonriver => assert(vs[28] == c),
            Chain::Moonbase => assert(vs[29] == c),
            Chain::Dev => assert(vs[30] == c),
            Chain::AnvilHardhat => assert(vs[31] == c),
            Chain::Evmos => assert(vs[32] == c),
            Chain::EvmosTestnet => assert(vs[33] == c),
            Chain::Chiado => assert(vs[34] == c),
            Chain::Oasis => assert(vs[35] == c),
            Chain::Emerald => assert(vs[36] == c),
            Chain::EmeraldTestnet => assert(vs[37] == c),
            Chain::Avalanche => assert(vs[38] == c),
            Chain::AvalancheFuji => assert(vs[39] == c),
            Chain::Celo => assert(vs[40] == c),
            Chain::CeloAlfajores => assert(vs[41] == c),
            Chain::CeloBaklava => assert(vs[42] == c),
            Chain::Aurora => assert(vs[43] == c),
            Chain::AuroraTestnet => assert(vs[44] == c),
        }
    }
}

impl core::default::Default for Chain {
    /// The default chain is Mainnet, chosen explicitly rather than by position
    /// or by lowest id.
    fn default() -> (r: Self)
        ensures
            r == Chain::Mainnet,
    {
        Chain::Mainnet
    }
}

} // verus!
