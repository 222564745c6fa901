use chain_registry::wide::{U256, U512};
use chain_registry::{Chain, ParseChainError};

#[test]
fn test_default_chain() {
    assert_eq!(serde_json::to_string(&Chain::default().name()).unwrap(), "\"mainnet\"");
}

#[test]
fn test_enum_iter() {
    assert_eq!(Chain::COUNT, Chain::variants().len());
}

#[test]
fn test_numeric_round_trip() {
    for c in Chain::variants() {
        assert_eq!(Chain::from_u64(c.to_u64()), Ok(c));
    }
}

#[test]
fn test_name_round_trip() {
    for c in Chain::variants() {
        assert_eq!(Chain::parse(c.name()), Ok(c));
    }
}

#[test]
fn test_aliases_resolve() {
    let cases = [
        ("bsc", Chain::BinanceSmartChain),
        ("bsc-testnet", Chain::BinanceSmartChainTestnet),
        ("gnosis", Chain::XDai),
        ("xdai", Chain::XDai),
        ("gnosis-chain", Chain::XDai),
        ("mumbai", Chain::PolygonMumbai),
        ("polygon-mumbai", Chain::PolygonMumbai),
        ("dev", Chain::Dev),
        ("anvil-hardhat", Chain::AnvilHardhat),
        ("anvil", Chain::AnvilHardhat),
        ("hardhat", Chain::AnvilHardhat),
        ("fuji", Chain::AvalancheFuji),
        ("avalanche-fuji", Chain::AvalancheFuji),
    ];
    for (alias, chain) in cases {
        assert_eq!(Chain::parse(alias), Ok(chain));
    }
}

#[test]
fn test_unknown_ids_fail() {
    for v in [0u64, 6, 11, 1000000, u64::MAX] {
        assert_eq!(Chain::from_u64(v), Err(ParseChainError::UnknownChainId(v)));
    }
}

#[test]
fn test_unrecognized_names_fail() {
    for s in ["", "Mainnet", "MAINNET", "main net", "bsc ", "unknown-chain"] {
        assert_eq!(
            Chain::parse(s),
            Err(ParseChainError::UnrecognizedName(s.to_string()))
        );
    }
}

#[test]
fn test_canonical_names_distinct() {
    let mut names = std::collections::HashSet::new();
    let mut ids = std::collections::HashSet::new();
    for c in Chain::variants() {
        assert!(names.insert(c.name()));
        assert!(ids.insert(c.to_u64()));
    }
    assert_eq!(names.len(), Chain::COUNT);
    assert_eq!(ids.len(), Chain::COUNT);
}

#[test]
fn test_narrow_conversions() {
    assert_eq!(Chain::from_u8(56), Ok(Chain::BinanceSmartChain));
    assert_eq!(Chain::from_u8(200), Err(ParseChainError::UnknownChainId(200)));
    assert_eq!(Chain::from_u16(97), Ok(Chain::BinanceSmartChainTestnet));
    assert_eq!(Chain::from_u32(80001), Ok(Chain::PolygonMumbai));
    assert_eq!(Chain::from_usize(31337), Ok(Chain::AnvilHardhat));
}

#[test]
fn test_wide_conversions() {
    assert_eq!(Chain::from_u128(137), Ok(Chain::Polygon));
    assert_eq!(Chain::from_u256(U256 { limbs: [100, 0, 0, 0] }), Ok(Chain::XDai));
    assert_eq!(
        Chain::from_u512(U512 { limbs: [11155111, 0, 0, 0, 0, 0, 0, 0] }),
        Ok(Chain::Sepolia)
    );
    assert_eq!(Chain::Aurora.to_u128(), 1313161554);
    assert_eq!(Chain::Aurora.to_u256(), U256 { limbs: [1313161554, 0, 0, 0] });
    assert_eq!(
        Chain::Aurora.to_u512(),
        U512 { limbs: [1313161554, 0, 0, 0, 0, 0, 0, 0] }
    );
}

#[test]
fn test_wide_overflow_reports_low_bits() {
    // 2^64 + 7: one bit beyond 64, low 64 bits are 7
    assert_eq!(
        Chain::from_u128((1u128 << 64) + 7),
        Err(ParseChainError::UnknownChainId(7))
    );
    assert_eq!(
        Chain::from_u256(U256 { limbs: [5, 1, 0, 0] }),
        Err(ParseChainError::UnknownChainId(5))
    );
    assert_eq!(
        Chain::from_u256(U256 { limbs: [1, 0, 0, u64::MAX] }),
        Err(ParseChainError::UnknownChainId(1))
    );
    assert_eq!(
        Chain::from_u512(U512 { limbs: [42, 0, 0, 0, 0, 0, 0, 3] }),
        Err(ParseChainError::UnknownChainId(42))
    );
}

#[test]
fn test_large_id_reports_value() {
    let v: u64 = 9999999999999999999;
    assert_eq!(Chain::from_u64(v), Err(ParseChainError::UnknownChainId(v)));
    assert_eq!(
        Chain::from_u256(U256 { limbs: [v, 0, 0, 0] }),
        Err(ParseChainError::UnknownChainId(v))
    );
}

#[test]
fn test_metadata_total() {
    for c in Chain::variants() {
        let _ = c.average_blocktime_hint();
        let _ = c.etherscan_urls();
        let _ = c.is_legacy();
    }
}

#[test]
fn test_binance_smart_chain_scenario() {
    let c = Chain::from_u64(56).unwrap();
    assert_eq!(c.name(), "binance-smart-chain");
    assert_eq!(Chain::parse("bsc"), Ok(c));
    assert!(c.is_legacy());
    assert_eq!(c.average_blocktime_hint(), Some(3000));
}

#[test]
fn test_mainnet_scenario() {
    let c = Chain::from_u64(1).unwrap();
    assert_eq!(c, Chain::Mainnet);
    assert!(!c.is_legacy());
    let (api, base) = c.etherscan_urls().unwrap();
    assert_eq!(api, "https://api.etherscan.io/api");
    assert_eq!(base, "https://etherscan.io");
}

#[test]
fn test_blocktime_entries() {
    assert_eq!(Chain::Mainnet.average_blocktime_hint(), Some(13_000));
    assert_eq!(Chain::Arbitrum.average_blocktime_hint(), Some(1_300));
    assert_eq!(Chain::Dev.average_blocktime_hint(), Some(200));
    assert_eq!(Chain::XDai.average_blocktime_hint(), None);
    assert_eq!(Chain::Ropsten.average_blocktime_hint(), None);
}

#[test]
fn test_explorer_entries() {
    assert_eq!(
        Chain::Polygon.etherscan_urls(),
        Some(("https://api.polygonscan.com/api", "https://polygonscan.com"))
    );
    assert_eq!(Chain::Dev.etherscan_urls(), None);
    assert_eq!(Chain::AnvilHardhat.etherscan_urls(), None);
    assert_eq!(Chain::Morden.etherscan_urls(), None);
    assert_eq!(Chain::MoonbeamDev.etherscan_urls(), None);
}

#[test]
fn test_legacy_classification() {
    assert!(Chain::Optimism.is_legacy());
    assert!(Chain::Celo.is_legacy());
    assert!(!Chain::Goerli.is_legacy());
    // unknown status defaults to false
    assert!(!Chain::Cronos.is_legacy());
    assert!(!Chain::XDai.is_legacy());
}
