use ethereum_prover::{
    cached_input, fetched_block, single_block_action, CachePolicy, Command, ConfigError,
    EthProofsSubmission, EthProverConfig, Mode, OnFailure, ProverError, Runner, SingleBlockAction,
    SourcePlan, SubmitterPlan, WorkerPlan,
};

#[test]
fn config_defaults() {
    let c = EthProverConfig::default();
    assert_eq!(c.app_bin_path, "../../artifacts/app.bin");
    assert_eq!(c.mode, Mode::CpuWitness);
    assert_eq!(c.cache_policy, CachePolicy::OnFailure);
    assert_eq!(c.ethproofs_submission, EthProofsSubmission::Off);
    assert_eq!(c.block_mod, 1);
    assert_eq!(c.prover_id, 0);
    assert_eq!(c.on_failure, OnFailure::Exit);
    assert!(c.rpc_url.is_none());
}

#[test]
fn submission_predicates() {
    assert!(!EthProofsSubmission::Off.enabled());
    assert!(EthProofsSubmission::Staging.enabled());
    assert!(EthProofsSubmission::Prod.enabled());
    assert!(EthProofsSubmission::Staging.is_staging());
    assert!(!EthProofsSubmission::Prod.is_staging());
}

#[test]
fn continuous_mode_needs_rpc() {
    let c = EthProverConfig::default();
    let err = Runner::new().plan(Command::Run, &c).unwrap_err();
    assert_eq!(err, ProverError::Config(ConfigError::MissingRpcUrl));
}

#[test]
fn continuous_plan_has_cache_manager() {
    let mut c = EthProverConfig::default();
    c.rpc_url = Some("http://node".to_string());
    c.block_mod = 4;
    c.prover_id = 1;
    c.mode = Mode::GpuProve;
    let p = Runner::new().plan(Command::Run, &c).unwrap();
    match p.source {
        SourcePlan::Continuous { rpc_url, prover_id, block_mod } => {
            assert_eq!(rpc_url, "http://node");
            assert_eq!((prover_id, block_mod), (1, 4));
        }
        _ => panic!("expected continuous source"),
    }
    assert_eq!(p.source_capacity, 10);
    assert_eq!(p.cache_manager.unwrap().cache_policy, CachePolicy::OnFailure);
    assert!(matches!(p.worker, WorkerPlan::GpuProve { .. }));
    assert!(matches!(p.submitter, SubmitterPlan::NoOp));
}

#[test]
fn single_block_plan_keeps_cache() {
    let mut c = EthProverConfig::default();
    c.cache_policy = CachePolicy::Off;
    let p = Runner::new().plan(Command::Block { block_number: Some(42) }, &c).unwrap();
    match p.source {
        SourcePlan::SingleBlock { block_number, rpc_url } => {
            assert_eq!(block_number, Some(42));
            assert!(rpc_url.is_none());
        }
        _ => panic!("expected single-block source"),
    }
    assert_eq!(p.source_capacity, 1);
    assert!(p.cache_manager.is_none());
    assert!(matches!(p.worker, WorkerPlan::CpuWitness { rpc_url: None, .. }));
}

#[test]
fn submission_needs_token_and_cluster() {
    let mut c = EthProverConfig::default();
    c.ethproofs_submission = EthProofsSubmission::Staging;
    let cmd = Command::Block { block_number: None };
    assert_eq!(
        Runner::new().plan(cmd, &c).unwrap_err(),
        ProverError::Config(ConfigError::MissingEthproofsToken)
    );
    c.ethproofs_token = Some("secret".to_string());
    assert_eq!(
        Runner::new().plan(cmd, &c).unwrap_err(),
        ProverError::Config(ConfigError::MissingClusterId)
    );
    c.ethproofs_cluster_id = Some(5);
    match Runner::new().plan(cmd, &c).unwrap().submitter {
        SubmitterPlan::Upload(client) => {
            assert_eq!(client.cluster_id, 5);
            assert_eq!(client.auth_token, "secret");
            assert_eq!(client.url, "https://staging--ethproofs.netlify.app/api/v0/");
        }
        SubmitterPlan::NoOp => panic!("expected an upload submitter"),
    }
}

#[test]
fn single_block_reads_from_cache_without_rpc() {
    assert_eq!(single_block_action(Some(42), true, false), Ok(SingleBlockAction::LoadFromCache(42)));
    assert_eq!(single_block_action(Some(42), true, true), Ok(SingleBlockAction::LoadFromCache(42)));
}

#[test]
fn single_block_fetches_when_not_cached() {
    assert_eq!(single_block_action(Some(42), false, true), Ok(SingleBlockAction::Fetch(42)));
    assert_eq!(single_block_action(None, false, true), Ok(SingleBlockAction::FetchHead));
    assert_eq!(single_block_action(None, true, true), Ok(SingleBlockAction::FetchHead));
    let err = single_block_action(Some(42), false, false).unwrap_err();
    assert_eq!(err, ProverError::Config(ConfigError::BlockNotCachedWithoutRpc));
    assert!(err.message().contains("no RPC URL"));
}

#[test]
fn missing_cache_contents_and_blocks() {
    assert_eq!(cached_input(Some(3u8)), Ok(3));
    assert_eq!(cached_input::<u8>(None), Err(ProverError::CacheIo));
    assert_eq!(fetched_block(Some("b")), Ok("b"));
    assert_eq!(fetched_block::<u8>(None), Err(ProverError::Rpc));
}

#[test]
fn single_block_run_from_cache_needs_no_network() {
    let mut c = EthProverConfig::default();
    c.cache_policy = CachePolicy::Off;
    c.ethproofs_submission = EthProofsSubmission::Off;
    c.mode = Mode::CpuWitness;
    let plan = Runner::new().plan(Command::Block { block_number: Some(42) }, &c).unwrap();
    assert!(matches!(plan.submitter, SubmitterPlan::NoOp));
    let SourcePlan::SingleBlock { block_number, rpc_url } = plan.source else {
        panic!("expected single-block source");
    };
    let action = single_block_action(block_number, true, rpc_url.is_some()).unwrap();
    assert_eq!(action, SingleBlockAction::LoadFromCache(42));
    assert_eq!(cached_input(Some(42u64)).unwrap(), 42);
}
