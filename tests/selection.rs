use ethereum_prover::{select_block, BlockSelector, ConfigError, ProverError};

#[test]
fn select_block_matches_expected() {
    assert_eq!(select_block(100, 0, 10).unwrap(), 100);
    assert_eq!(select_block(100, 5, 10).unwrap(), 95);
    assert_eq!(select_block(100, 9, 10).unwrap(), 99);
    assert_eq!(select_block(105, 0, 10).unwrap(), 100);
    assert_eq!(select_block(105, 5, 10).unwrap(), 105);
}

#[test]
fn select_block_rejects_zero_mod() {
    let err = select_block(10, 0, 0).unwrap_err();
    assert!(err.message().contains("block_mod"));
}

#[test]
fn select_block_rejects_large_prover_id() {
    let err = select_block(10, 10, 10).unwrap_err();
    assert!(err.message().contains("prover_id"));
}

#[test]
fn select_block_rejects_candidate_before_prover_id() {
    let err = select_block(3, 5, 10).unwrap_err();
    assert!(err.message().contains("candidate block"));
}

#[test]
fn select_block_errors_have_distinct_kinds() {
    assert_eq!(select_block(10, 0, 0), Err(ProverError::Config(ConfigError::BlockModZero)));
    assert_eq!(select_block(10, 10, 10), Err(ProverError::Config(ConfigError::ProverIdOutOfRange)));
    assert_eq!(select_block(3, 5, 10), Err(ProverError::Config(ConfigError::CandidateBelowProverId)));
}

#[test]
fn select_block_stays_in_stride_near_the_top() {
    let head = u64::MAX;
    let s = select_block(head, 9, 10).unwrap();
    assert!(s <= head);
    assert_eq!(s % 10, 9);
    assert!(head - s < 10);
    assert_eq!(select_block(u64::MAX, 0, 1).unwrap(), u64::MAX);
}

#[test]
fn select_block_with_stride_one_selects_the_head() {
    for h in 0..50u64 {
        assert_eq!(select_block(h, 0, 1).unwrap(), h);
    }
}

#[test]
fn select_block_partitions_blocks_among_workers() {
    let head = 1_234u64;
    let mut seen = Vec::new();
    for id in 0..7u64 {
        let s = select_block(head, id, 7).unwrap();
        assert_eq!(s % 7, id);
        assert!(s <= head && head - s < 7);
        assert!(!seen.contains(&s));
        seen.push(s);
    }
}

#[test]
fn selector_emits_only_increasing_blocks() {
    let mut sel = BlockSelector::new(5, 10);
    assert_eq!(sel.on_head(100).unwrap(), Some(95));
    assert_eq!(sel.on_head(100).unwrap(), None);
    assert_eq!(sel.on_head(104).unwrap(), None);
    assert_eq!(sel.on_head(105).unwrap(), Some(105));
    assert_eq!(sel.on_head(99).unwrap(), None);
    assert_eq!(sel.on_head(116).unwrap(), Some(115));
    assert_eq!(sel.last_selected, Some(115));
}

#[test]
fn selector_emissions_over_rising_heads_are_strictly_increasing() {
    let mut sel = BlockSelector::new(3, 4);
    let mut emitted = Vec::new();
    for head in 3..60u64 {
        if let Some(b) = sel.on_head(head).unwrap() {
            emitted.push(b);
        }
    }
    assert_eq!(emitted.len(), 15);
    for w in emitted.windows(2) {
        assert!(w[0] < w[1]);
        assert_eq!(w[1] - w[0], 4);
    }
}

#[test]
fn selector_error_leaves_state_unchanged() {
    let mut sel = BlockSelector::new(5, 10);
    assert_eq!(sel.on_head(20).unwrap(), Some(15));
    assert_eq!(
        sel.on_head(3),
        Err(ProverError::Config(ConfigError::CandidateBelowProverId))
    );
    assert_eq!(sel.last_selected, Some(15));
    let mut bad = BlockSelector::new(0, 0);
    assert_eq!(bad.on_head(10), Err(ProverError::Config(ConfigError::BlockModZero)));
    assert_eq!(bad.last_selected, None);
}
