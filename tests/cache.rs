use ethereum_prover::{
    decimal_string, join_path, receipt_file, CacheManager, CachePolicy, CacheStorage,
    CalculationUpdate, EntryFiles, ProofResult,
};

#[test]
fn block_paths_follow_the_layout() {
    let cache = CacheStorage::new(".cache".to_string());
    let p = cache.block_paths(123);
    assert_eq!(p.dir, ".cache/blocks/123");
    assert_eq!(p.block_json, ".cache/blocks/123/block.json");
    assert_eq!(p.execution_witness_json, ".cache/blocks/123/execution_witness.json");
    assert_eq!(p.receipts_dir, ".cache/blocks/123/receipts");
    let slash = CacheStorage::new("/tmp/c/".to_string());
    assert_eq!(slash.block_paths(0).dir, "/tmp/c/blocks/0");
}

#[test]
fn receipt_paths_use_the_hex_hash() {
    let cache = CacheStorage::new("root".to_string());
    let mut h = [0u8; 32];
    h[0] = 0xab;
    h[31] = 0x0f;
    let path = cache.receipt_path(7, &h);
    let expected = format!("root/blocks/7/receipts/0xab{}0f.json", "00".repeat(30));
    assert_eq!(path, expected);
    assert_eq!(receipt_file(&[0xff; 32]), format!("0x{}.json", "ff".repeat(32)));
}

#[test]
fn decimal_and_join() {
    assert_eq!(decimal_string(0), "0");
    assert_eq!(decimal_string(42), "42");
    assert_eq!(decimal_string(u64::MAX), u64::MAX.to_string());
    assert_eq!(join_path("", "a"), "a");
    assert_eq!(join_path("a", "b"), "a/b");
    assert_eq!(join_path("a/", "b"), "a/b");
}

#[test]
fn entry_is_complete_only_with_both_files() {
    let cache = CacheStorage::new("r".to_string());
    let both = EntryFiles { block_json: true, execution_witness_json: true };
    assert!(cache.has_cached_block(&both));
    assert!(!cache.has_cached_block(&EntryFiles { block_json: true, execution_witness_json: false }));
    assert!(!cache.has_cached_block(&EntryFiles { block_json: false, execution_witness_json: true }));
}

fn provided(n: u64) -> CalculationUpdate {
    CalculationUpdate::ProofProvided {
        block_number: n,
        proof_result: ProofResult { proof_bytes: vec![], cycles: 0, proving_time_ms: 0 },
    }
}

#[test]
fn manager_prunes_completed_blocks_under_on_failure() {
    let m = CacheManager::new(CachePolicy::OnFailure);
    let (removal, fwd) = m.observe(provided(9));
    assert_eq!(removal, Some(9));
    assert_eq!(fwd.block_number(), 9);
    let (removal, _) = m.observe(CalculationUpdate::WitnessCalculated { block_number: 4, witness_words: vec![] });
    assert_eq!(removal, Some(4));
    let (removal, fwd) = m.observe(CalculationUpdate::ProofQueued { block_number: 4 });
    assert_eq!(removal, None);
    assert!(matches!(fwd, CalculationUpdate::ProofQueued { block_number: 4 }));
}

#[test]
fn manager_keeps_entries_under_other_policies() {
    for policy in [CachePolicy::Off, CachePolicy::Always] {
        let m = CacheManager::new(policy);
        assert_eq!(m.observe(provided(1)).0, None);
        assert_eq!(m.observe(CalculationUpdate::ProofProving { block_number: 1 }).0, None);
    }
}

#[test]
fn policy_predicates() {
    assert!(!CachePolicy::Off.writes_cache());
    assert!(CachePolicy::OnFailure.writes_cache());
    assert!(CachePolicy::Always.writes_cache());
    assert!(CachePolicy::OnFailure.prunes_on_success());
    assert!(!CachePolicy::Always.prunes_on_success());
}
