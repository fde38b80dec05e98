use eth_payload_builder::chain::{next_base_fee, next_excess_blob_gas, calc_blob_gasprice, BlobParams};
use eth_payload_builder::config::EthereumBuilderConfig;
use eth_payload_builder::tx::{SignedTx, MAX_DATA_GAS_PER_BLOCK};
use eth_payload_builder::digest::mix64;

fn plain_tx() -> SignedTx {
    SignedTx {
        hash: 1,
        sender: 1,
        to: 2,
        nonce: 0,
        tx_type: 2,
        gas_limit: 21000,
        max_fee_per_gas: 100,
        max_priority_fee_per_gas: 10,
        blob_gas: 0,
        sidecar: 0,
        value: 0,
        gas_used: 21000,
        reverted: false,
        unsupported: false,
        db_fault: false,
        log_word: 0,
        deposit: None,
    }
}

#[test]
fn base_fee_stays_at_target() {
    assert_eq!(next_base_fee(30_000_000, 15_000_000, 800), 800);
}

#[test]
fn base_fee_rises_on_full_block() {
    // a full block raises the fee by an eighth
    assert_eq!(next_base_fee(30_000_000, 30_000_000, 800), 900);
}

#[test]
fn base_fee_rises_at_least_one() {
    assert_eq!(next_base_fee(30_000_000, 30_000_000, 7), 8);
}

#[test]
fn base_fee_falls_on_half_target() {
    assert_eq!(next_base_fee(30_000_000, 7_500_000, 800), 750);
}

#[test]
fn base_fee_falls_on_empty_block() {
    assert_eq!(next_base_fee(30_000_000, 0, 800), 700);
}

#[test]
fn excess_blob_gas_clamps_at_zero() {
    assert_eq!(next_excess_blob_gas(0, 131072, 393216), 0);
}

#[test]
fn excess_blob_gas_carries_surplus() {
    assert_eq!(next_excess_blob_gas(393216, 786432, 393216), 786432);
}

#[test]
fn blob_gasprice_floor() {
    assert_eq!(calc_blob_gasprice(0, BlobParams::cancun().update_fraction), 1);
}

#[test]
fn blob_gasprice_grows_with_excess() {
    let f = BlobParams::cancun().update_fraction;
    assert_eq!(calc_blob_gasprice(5 * f + 12, f), 6);
}

#[test]
fn blob_params_per_fork() {
    assert_eq!(BlobParams::cancun().target_blob_gas, 393216);
    assert_eq!(BlobParams::prague().target_blob_gas, 786432);
    assert_eq!(MAX_DATA_GAS_PER_BLOCK, 786432);
}

#[test]
fn gas_limit_policy_keeps_parent_when_desired() {
    let cfg = EthereumBuilderConfig::new(0, 30_000_000);
    assert_eq!(cfg.gas_limit(30_000_000), 30_000_000);
}

#[test]
fn gas_limit_policy_bounded_drift() {
    let cfg = EthereumBuilderConfig::new(0, 40_000_000);
    // the limit may drift by strictly less than a 1024th of the parent
    assert_eq!(cfg.gas_limit(30_000_000), 30_000_000 + 30_000_000 / 1024 - 1);
    let down = EthereumBuilderConfig::new(0, 20_000_000);
    assert_eq!(down.gas_limit(30_000_000), 30_000_000 - (30_000_000 / 1024 - 1));
}

#[test]
fn effective_tip_caps_at_fee_headroom() {
    let mut t = plain_tx();
    t.max_fee_per_gas = 100;
    t.max_priority_fee_per_gas = 10;
    assert_eq!(t.effective_tip_per_gas(95), Some(5));
    assert_eq!(t.effective_tip_per_gas(80), Some(10));
    assert_eq!(t.effective_tip_per_gas(101), None);
}

#[test]
fn digest_is_deterministic() {
    assert_eq!(mix64(1, 2), mix64(1, 2));
    assert_ne!(mix64(mix64(0, 1), 2), mix64(mix64(0, 2), 1));
}
