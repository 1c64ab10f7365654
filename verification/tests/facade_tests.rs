use btc_wallet_core::balance::{balance_of, utxo_request, Utxo};
use btc_wallet_core::errors::BtcError;
use btc_wallet_core::facade::{
    get_address, get_balance_of_finish, get_balance_of_start, get_own_balance_finish,
    get_own_balance_start, probe_connectivity, ConnectivityStatus, OwnBalanceStep, ProbeOutcome,
    SignerOutcome, UtxoOutcome,
};
use btc_wallet_core::keys::{get_key_id, signer_request, Curve, Identity};
use btc_wallet_core::network::{NetworkConfig, NetworkSelector};

/// The secp256k1 generator point, compressed: a well-formed public key.
fn valid_key() -> Vec<u8> {
    vec![
        0x02, 0x79, 0xbe, 0x66, 0x7e, 0xf9, 0xdc, 0xbb, 0xac, 0x55, 0xa0, 0x62, 0x95, 0xce, 0x87,
        0x0b, 0x07, 0x02, 0x9b, 0xfc, 0xdb, 0x2d, 0xce, 0x28, 0xd9, 0x59, 0xf2, 0x81, 0x5b, 0x16,
        0xf8, 0x17, 0x98,
    ]
}

fn testnet_cfg() -> NetworkConfig {
    NetworkConfig::new(NetworkSelector::Testnet)
}

#[test]
fn balance_sums_exactly() {
    let utxos = vec![Utxo { value: 5000 }, Utxo { value: 3000 }, Utxo { value: 0 }];
    assert_eq!(balance_of(&utxos), 8000);
}

#[test]
fn balance_of_empty_set_is_zero() {
    let utxos: Vec<Utxo> = Vec::new();
    assert_eq!(balance_of(&utxos), 0);
}

#[test]
fn balance_near_max_supply_is_exact() {
    // twice the total bitcoin supply in satoshi, summed exactly
    let utxos = vec![
        Utxo { value: 2_100_000_000_000_000 },
        Utxo { value: 2_100_000_000_000_000 },
    ];
    assert_eq!(balance_of(&utxos), 4_200_000_000_000_000);
}

#[test]
fn balance_never_silently_wraps() {
    let utxos = vec![Utxo { value: u64::MAX }, Utxo { value: 1 }, Utxo { value: 7 }];
    assert_eq!(balance_of(&utxos), u64::MAX);
}

#[test]
fn derivation_is_deterministic() {
    let id = Identity::new(vec![1, 2, 3, 4, 5]);
    let r1 = signer_request(&id);
    let r2 = signer_request(&id);
    assert_eq!(r1.derivation_path, r2.derivation_path);
    assert_eq!(r1.derivation_path, vec![vec![1, 2, 3, 4, 5]]);
    assert_eq!(r1.key_id.name, "test_key_1");
    assert!(matches!(r1.key_id.curve, Curve::Secp256k1));
    assert_eq!(get_key_id().name, r2.key_id.name);
}

#[test]
fn same_key_same_address() {
    let cfg = testnet_cfg();
    let a1 = get_address(&cfg, SignerOutcome::Key(valid_key())).unwrap();
    let a2 = get_address(&cfg, SignerOutcome::Key(valid_key())).unwrap();
    assert_eq!(a1, a2);
}

#[test]
fn address_matches_reference_encoding() {
    // the library's encoding agrees with the bitcoin crate used directly
    let pk = bitcoin::PublicKey::from_slice(&valid_key()).unwrap();
    let expected = bitcoin::Address::p2wpkh(&pk, bitcoin::Network::Testnet)
        .unwrap()
        .to_string();
    let cfg = testnet_cfg();
    let got = get_address(&cfg, SignerOutcome::Key(valid_key())).unwrap();
    assert_eq!(got, expected);
    assert!(got.starts_with("tb1"));
}

#[test]
fn encoding_differs_across_networks() {
    let nets = [
        NetworkSelector::Mainnet,
        NetworkSelector::Testnet,
        NetworkSelector::Regtest,
    ];
    let prefixes = ["bc1", "tb1", "bcrt1"];
    let mut addrs: Vec<String> = Vec::new();
    for (net, prefix) in nets.iter().zip(prefixes.iter()) {
        let cfg = NetworkConfig::new(*net);
        let a = get_address(&cfg, SignerOutcome::Key(valid_key())).unwrap();
        assert!(a.starts_with(prefix));
        addrs.push(a);
    }
    assert_ne!(addrs[0], addrs[1]);
    assert_ne!(addrs[0], addrs[2]);
    assert_ne!(addrs[1], addrs[2]);
}

#[test]
fn signer_failure_surfaces_as_signer_unavailable() {
    let cfg = testnet_cfg();
    assert_eq!(
        get_address(&cfg, SignerOutcome::Unavailable),
        Err(BtcError::SignerUnavailable)
    );
}

#[test]
fn invalid_point_is_malformed_key() {
    let cfg = testnet_cfg();
    // 0x05 is not a valid compressed-point prefix
    let bad = vec![0x05; 33];
    assert_eq!(
        get_address(&cfg, SignerOutcome::Key(bad)),
        Err(BtcError::MalformedKey)
    );
}

#[test]
fn wrong_length_key_is_malformed_key() {
    let cfg = testnet_cfg();
    let mut short = valid_key();
    short.pop();
    assert_eq!(
        get_address(&cfg, SignerOutcome::Key(short)),
        Err(BtcError::MalformedKey)
    );
}

#[test]
fn signer_failure_is_isolated_from_chain_data() {
    // a signer failure stops get_own_balance before any chain-data query
    let cfg = testnet_cfg();
    let step = get_own_balance_start(&cfg, SignerOutcome::Unavailable);
    match step {
        OwnBalanceStep::Fail(e) => assert_eq!(e, BtcError::SignerUnavailable),
        OwnBalanceStep::QueryUtxos(_) => panic!("chain-data query built after signer failure"),
    }
}

#[test]
fn own_balance_query_uses_the_configured_network() {
    let cfg = testnet_cfg();
    let step = get_own_balance_start(&cfg, SignerOutcome::Key(valid_key()));
    match step {
        OwnBalanceStep::QueryUtxos(req) => {
            assert_eq!(req.network, NetworkSelector::Testnet);
            assert!(req.address.starts_with("tb1"));
        }
        OwnBalanceStep::Fail(_) => panic!("well-formed key must yield a query"),
    }
}

#[test]
fn chain_failure_surfaces_not_zero_balance() {
    let r = get_own_balance_finish(String::from("tb1qexample"), UtxoOutcome::Unavailable);
    assert!(r.is_err());
    assert_eq!(r.err().unwrap(), BtcError::ChainDataUnavailable);
    assert_eq!(
        get_balance_of_finish(UtxoOutcome::Unavailable),
        Err(BtcError::ChainDataUnavailable)
    );
}

#[test]
fn balance_of_rejects_garbage_text() {
    let cfg = testnet_cfg();
    assert_eq!(
        get_balance_of_start(&cfg, String::from("not an address")).err(),
        Some(BtcError::InvalidAddressFormat)
    );
    assert_eq!(
        get_balance_of_start(&cfg, String::from("tb1qqq")).err(),
        Some(BtcError::InvalidAddressFormat)
    );
}

#[test]
fn address_with_foreign_character_is_rejected() {
    let cfg = testnet_cfg();
    let addr = get_address(&cfg, SignerOutcome::Key(valid_key())).unwrap();
    let mut mutated: String = addr[..addr.len() - 1].to_string();
    mutated.push('b'); // 'b' is not in the bech32 data alphabet
    assert_eq!(
        get_balance_of_start(&cfg, mutated).err(),
        Some(BtcError::InvalidAddressFormat)
    );
}

#[test]
fn balance_of_rejects_cross_network_address() {
    // a mainnet address under a testnet deployment is refused, never
    // queried against the wrong ledger
    let mainnet = NetworkConfig::new(NetworkSelector::Mainnet);
    let testnet = testnet_cfg();
    let mainnet_addr = get_address(&mainnet, SignerOutcome::Key(valid_key())).unwrap();
    assert_eq!(
        get_balance_of_start(&testnet, mainnet_addr.clone()).err(),
        Some(BtcError::InvalidAddressFormat)
    );
    // the same text is accepted by its own network's deployment
    let req = get_balance_of_start(&mainnet, mainnet_addr.clone()).unwrap();
    assert_eq!(req.network, NetworkSelector::Mainnet);
    assert_eq!(req.address, mainnet_addr);
}

#[test]
fn balance_of_accepts_own_network_address_and_sums() {
    let cfg = testnet_cfg();
    let addr = get_address(&cfg, SignerOutcome::Key(valid_key())).unwrap();
    let req = get_balance_of_start(&cfg, addr.clone()).unwrap();
    assert_eq!(req.address, addr);
    assert_eq!(req.network, NetworkSelector::Testnet);
    let total = get_balance_of_finish(UtxoOutcome::Fetched(vec![
        Utxo { value: 40 },
        Utxo { value: 2 },
    ]))
    .unwrap();
    assert_eq!(total, 42);
}

#[test]
fn end_to_end_own_balance_scenario() {
    // identity -> signer key -> testnet address -> one 1200-satoshi UTXO
    let cfg = testnet_cfg();
    let identity = Identity::new(vec![9, 9, 9]);
    let request = signer_request(&identity);
    assert_eq!(request.derivation_path, vec![vec![9, 9, 9]]);
    let k1 = valid_key(); // what the signer answers for this identity
    let a1 = get_address(&cfg, SignerOutcome::Key(k1.clone())).unwrap();
    let step = get_own_balance_start(&cfg, SignerOutcome::Key(k1));
    let req = match step {
        OwnBalanceStep::QueryUtxos(req) => req,
        OwnBalanceStep::Fail(_) => panic!("derivation failed"),
    };
    assert_eq!(req.address, a1);
    assert_eq!(req.network, NetworkSelector::Testnet);
    let own = get_own_balance_finish(req.address, UtxoOutcome::Fetched(vec![Utxo { value: 1200 }]))
        .unwrap();
    assert_eq!(own.address, a1);
    assert_eq!(own.balance_sats, 1200);
}

#[test]
fn probe_reports_connectivity() {
    assert_eq!(
        probe_connectivity(ProbeOutcome::Reached),
        ConnectivityStatus::Online
    );
    assert_eq!(
        probe_connectivity(ProbeOutcome::Unreachable),
        ConnectivityStatus::Offline
    );
    assert_ne!(
        ConnectivityStatus::Online.message(),
        ConnectivityStatus::Offline.message()
    );
}

#[test]
fn error_messages_are_distinguishable() {
    let all = [
        BtcError::SignerUnavailable,
        BtcError::MalformedKey,
        BtcError::ChainDataUnavailable,
        BtcError::InvalidAddressFormat,
    ];
    for (i, a) in all.iter().enumerate() {
        for (j, b) in all.iter().enumerate() {
            if i != j {
                assert_ne!(a.message(), b.message());
            }
        }
    }
    assert_eq!(
        BtcError::SignerUnavailable.message(),
        "signer unavailable: public key request failed"
    );
}

#[test]
fn utxo_request_ties_query_network_to_config() {
    let cfg = NetworkConfig::new(NetworkSelector::Regtest);
    let req = utxo_request(&cfg, String::from("bcrt1qexampleexample"));
    assert_eq!(req.network, cfg.network);
}
