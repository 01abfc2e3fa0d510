//! The plain mirror types: constructors, accessors, and their bounds.

use zcash_ffi::account::ZcashAccountId;
use zcash_ffi::amount::{
    ZcashAmount, ZcashBalanceError, ZcashNonNegativeAmount, MAX_MONEY,
};
use zcash_ffi::block::{
    ZcashBlockHash, ZcashBlockHeight, ZcashBlockMetadata, ZcashCommitmentTreeRoot,
};
use zcash_ffi::consensus::ZcashConsensusParameters;
use zcash_ffi::error::ZcashError;
use zcash_ffi::memo::ZcashMemo;
use zcash_ffi::note::{ZcashNoteId, ZcashShieldedProtocol};
use zcash_ffi::scan::{ZcashScanRange, ZcashScanRangePriority};
use zcash_ffi::txid::{ZcashOutPoint, ZcashTxId};
use zcash_ffi::wallet_db::{
    TupleAccountIdAndUnifiedSpendingKey, TupleBlockHeightAndHash, TupleMinAndMaxBlockHeight,
    ZcashUnifiedSpendingKey, ZcashWalletDb,
};

use std::sync::Arc;

#[test]
fn block_height_holds_its_value() {
    let h = ZcashBlockHeight::new(1_234_567);
    assert_eq!(h.value(), 1_234_567);
}

#[test]
fn block_hash_round_trips_32_bytes() {
    let bytes: Vec<u8> = (0u8..32).collect();
    let h = ZcashBlockHash::from_slice(bytes.clone()).expect("32 bytes are a hash");
    assert_eq!(h.bytes().clone(), bytes);
}

#[test]
fn block_hash_rejects_other_lengths() {
    let r = ZcashBlockHash::from_slice(vec![0u8; 31]);
    match r {
        Err(ZcashError::ArrayLengthMismatch { expected, got }) => {
            assert_eq!(expected, 32);
            assert_eq!(got, 31);
        }
        _ => panic!("31 bytes must be rejected as a length mismatch"),
    }
}

#[test]
fn txid_round_trips_32_bytes() {
    let bytes = vec![0xabu8; 32];
    let t = ZcashTxId::from_bytes(bytes.clone()).expect("32 bytes are a txid");
    assert_eq!(t.to_bytes(), bytes);
}

#[test]
fn txid_rejects_other_lengths() {
    let r = ZcashTxId::from_bytes(vec![0u8; 33]);
    match r {
        Err(ZcashError::ArrayLengthMismatch { expected, got }) => {
            assert_eq!(expected, 32);
            assert_eq!(got, 33);
        }
        _ => panic!("33 bytes must be rejected as a length mismatch"),
    }
}

#[test]
fn outpoint_holds_hash_and_index() {
    let hash = vec![7u8; 32];
    let o = ZcashOutPoint::new(hash.clone(), 3).expect("32 bytes are a tx hash");
    assert_eq!(o.hash(), hash);
    assert_eq!(o.n(), 3);
    assert!(ZcashOutPoint::new(vec![7u8; 20], 3).is_err());
}

#[test]
fn amount_accepts_exactly_the_supply_range() {
    assert_eq!(ZcashAmount::from_i64(0).unwrap().value(), 0);
    assert_eq!(ZcashAmount::from_i64(-42).unwrap().value(), -42);
    let max = MAX_MONEY as i64;
    assert_eq!(ZcashAmount::from_i64(max).unwrap().value(), max);
    assert_eq!(ZcashAmount::from_i64(-max).unwrap().value(), -max);
    assert!(matches!(
        ZcashAmount::from_i64(max + 1),
        Err(ZcashBalanceError::Overflow)
    ));
    assert!(matches!(
        ZcashAmount::from_i64(-max - 1),
        Err(ZcashBalanceError::Underflow)
    ));
    assert_eq!(ZcashAmount::from_u64(17).unwrap().value(), 17);
    assert!(matches!(
        ZcashAmount::from_u64(MAX_MONEY + 1),
        Err(ZcashBalanceError::Overflow)
    ));
    assert_eq!(ZcashAmount::zero().value(), 0);
}

#[test]
fn nonnegative_amount_accepts_zero_to_supply() {
    assert_eq!(ZcashNonNegativeAmount::from_u64(MAX_MONEY).unwrap().value(), MAX_MONEY);
    assert!(matches!(
        ZcashNonNegativeAmount::from_u64(MAX_MONEY + 1),
        Err(ZcashBalanceError::Overflow)
    ));
    assert_eq!(ZcashNonNegativeAmount::from_nonnegative_i64(9).unwrap().value(), 9);
    assert!(matches!(
        ZcashNonNegativeAmount::from_nonnegative_i64(-1),
        Err(ZcashBalanceError::Underflow)
    ));
    assert_eq!(ZcashNonNegativeAmount::zero().value(), 0);
}

#[test]
fn scan_range_reports_bounds_len_and_priority() {
    let r = ZcashScanRange::from_parts(
        ZcashBlockHeight::new(100),
        ZcashBlockHeight::new(150),
        ZcashScanRangePriority::Verify,
    );
    assert_eq!(r.block_range_start().value(), 100);
    assert_eq!(r.block_range_end().value(), 150);
    assert_eq!(r.len(), 50);
    assert!(!r.is_empty());
    assert_eq!(r.priority(), ZcashScanRangePriority::Verify);

    let empty = ZcashScanRange::from_parts(
        ZcashBlockHeight::new(7),
        ZcashBlockHeight::new(7),
        ZcashScanRangePriority::Ignored,
    );
    assert!(empty.is_empty());
    assert_eq!(empty.len(), 0);
}

#[test]
fn note_id_holds_its_parts() {
    let txid = ZcashTxId::from_bytes(vec![9u8; 32]).unwrap();
    let n = ZcashNoteId::new(Arc::new(txid), ZcashShieldedProtocol::Sapling, 2);
    assert_eq!(n.txid.to_bytes(), vec![9u8; 32]);
    assert_eq!(n.protocol, ZcashShieldedProtocol::Sapling);
    assert_eq!(n.output_index, 2);
}

#[test]
fn memo_variants_carry_their_payloads() {
    let text = ZcashMemo::Text { v: String::from("thanks") };
    match text {
        ZcashMemo::Text { v } => assert_eq!(v, "thanks"),
        _ => panic!("text memo must stay a text memo"),
    }
    assert!(matches!(ZcashMemo::Empty, ZcashMemo::Empty));
    match (ZcashMemo::Arbitrary { v: vec![1, 2, 3] }) {
        ZcashMemo::Arbitrary { v } => assert_eq!(v, vec![1, 2, 3]),
        _ => panic!("arbitrary memo must stay an arbitrary memo"),
    }
}

#[test]
fn commitment_tree_root_holds_its_parts() {
    let hash = ZcashBlockHash::from_slice(vec![5u8; 32]).unwrap();
    let root = ZcashCommitmentTreeRoot::from_parts(ZcashBlockHeight::new(400_000), hash);
    assert_eq!(root.subtree_end_height.value(), 400_000);
    assert_eq!(root.root_hash.bytes().clone(), vec![5u8; 32]);
}

#[test]
fn block_metadata_holds_its_parts() {
    let hash = ZcashBlockHash::from_slice(vec![6u8; 32]).unwrap();
    let meta = ZcashBlockMetadata::from_parts(ZcashBlockHeight::new(1), hash, Some(65536));
    assert_eq!(meta.block_height.value(), 1);
    assert_eq!(meta.sapling_tree_size, Some(65536));
}

#[test]
fn wallet_db_for_path_keeps_path_and_params() {
    let db = ZcashWalletDb::for_path(
        String::from("/tmp/wallet.sqlite"),
        ZcashConsensusParameters::TestNetwork,
    )
    .expect("for_path never fails");
    assert_eq!(db.path, "/tmp/wallet.sqlite");
    assert_eq!(db.params, ZcashConsensusParameters::TestNetwork);
}

#[test]
fn height_tuples_hold_their_parts() {
    let t = TupleMinAndMaxBlockHeight::new(ZcashBlockHeight::new(3), ZcashBlockHeight::new(8));
    assert_eq!(t.min.value(), 3);
    assert_eq!(t.max.value(), 8);

    let hash = ZcashBlockHash::from_slice(vec![1u8; 32]).unwrap();
    let hh = TupleBlockHeightAndHash::new(ZcashBlockHeight::new(12), hash);
    assert_eq!(hh.block_height.value(), 12);
    assert_eq!(hh.block_hash.bytes().clone(), vec![1u8; 32]);
}

#[test]
fn account_tuple_holds_id_and_key() {
    let usk = zcash_keys::keys::UnifiedSpendingKey::from_seed(
        &zcash_protocol::consensus::MAIN_NETWORK,
        &[7u8; 32],
        zip32::AccountId::ZERO,
    )
    .expect("seed of 32 bytes derives a key");
    let t = TupleAccountIdAndUnifiedSpendingKey::new(
        ZcashAccountId::new(0),
        ZcashUnifiedSpendingKey { key: usk },
    );
    assert_eq!(t.account_id.value(), 0);
    assert_eq!(t.account_id, ZcashAccountId { id: 0 });
    let _key: &zcash_keys::keys::UnifiedSpendingKey = &t.unified_spending_key.key;
}
