use ethereum_prover::{
    conclude_block, join_failure_message, strip_bin_suffix, witness_outcome, BlockConclusion,
    CalculationUpdate, CpuCommand, CpuEvent, CpuPhase, CpuWitnessGenerator, CpuWitnessJob,
    OnFailure, ProofResult, ProveOutcome, ProverError, ProverState, ProverSupervisor,
};

#[test]
fn cpu_job_success_path() {
    let (mut job, cmd) = CpuWitnessJob::start(10, true);
    assert!(matches!(cmd, CpuCommand::RunForward));
    assert!(matches!(job.step(CpuEvent::ForwardRunSucceeded), CpuCommand::GenerateWitness));
    let out = job.step(CpuEvent::WitnessGenerated { output: [0, 0, 0, 1, 0, 0, 0, 0], witness_words: vec![9, 8] });
    match out {
        CpuCommand::Finish(Ok(CalculationUpdate::WitnessCalculated { block_number, witness_words })) => {
            assert_eq!(block_number, 10);
            assert_eq!(witness_words, vec![9, 8]);
        }
        other => panic!("unexpected {:?}", other),
    }
    assert_eq!(job.phase, CpuPhase::Finished);
}

#[test]
fn cpu_job_all_zero_output_fails_generation() {
    let (mut job, _) = CpuWitnessJob::start(10, false);
    job.step(CpuEvent::ForwardRunSucceeded);
    let out = job.step(CpuEvent::WitnessGenerated { output: [0; 8], witness_words: vec![1] });
    assert!(matches!(out, CpuCommand::Finish(Err(ProverError::WitnessGenFailed))));
}

#[test]
fn cpu_job_failed_forward_run_is_replayed_when_rpc_available() {
    let (mut job, _) = CpuWitnessJob::start(11, true);
    assert!(matches!(job.step(CpuEvent::ForwardRunFailed), CpuCommand::RunDebugReplay));
    assert_eq!(job.phase, CpuPhase::DebugReplay);
    let out = job.step(CpuEvent::DebugReplayFinished);
    assert!(matches!(out, CpuCommand::Finish(Err(ProverError::ForwardRunFailed))));
}

#[test]
fn cpu_job_failed_forward_run_without_rpc_fails_at_once() {
    let (mut job, _) = CpuWitnessJob::start(11, false);
    let out = job.step(CpuEvent::ForwardRunFailed);
    assert!(matches!(out, CpuCommand::Finish(Err(ProverError::ForwardRunFailed))));
}

#[test]
fn cpu_job_invalid_witness_and_stray_events() {
    let (mut job, _) = CpuWitnessJob::start(12, true);
    assert!(matches!(job.step(CpuEvent::DebugReplayFinished), CpuCommand::RunForward));
    assert_eq!(job.phase, CpuPhase::ForwardRun);
    let out = job.step(CpuEvent::OracleInvalid);
    assert!(matches!(out, CpuCommand::Finish(Err(ProverError::InvalidWitness))));
}

#[test]
fn witness_outcome_checks_runner_output() {
    assert!(matches!(witness_outcome(1, &[0; 8], vec![]), Err(ProverError::WitnessGenFailed)));
    assert!(matches!(
        witness_outcome(1, &[0, 0, 0, 0, 0, 0, 0, 5], vec![3]),
        Ok(CalculationUpdate::WitnessCalculated { block_number: 1, .. })
    ));
}

#[test]
fn failure_policy() {
    let ok = CalculationUpdate::ProofQueued { block_number: 1 };
    assert!(matches!(conclude_block(OnFailure::Exit, Ok(ok)), BlockConclusion::Emit(_)));
    assert!(matches!(
        conclude_block(OnFailure::Exit, Err(ProverError::ProveFailed)),
        BlockConclusion::Stop(ProverError::ProveFailed)
    ));
    assert!(matches!(
        conclude_block(OnFailure::Continue, Err(ProverError::ProveFailed)),
        BlockConclusion::Skip(ProverError::ProveFailed)
    ));
}

#[test]
fn supervisor_orders_updates_and_allows_one_prove() {
    let mut sup = ProverSupervisor::new();
    let ann = sup.begin(5).unwrap();
    assert!(matches!(ann[0], CalculationUpdate::ProofQueued { block_number: 5 }));
    assert!(matches!(ann[1], CalculationUpdate::ProofProving { block_number: 5 }));
    assert_eq!(sup.state, ProverState::Proving { block_number: 5 });
    assert!(sup.begin(6).is_none());
    let res = ProofResult { proof_bytes: vec![1], cycles: 2, proving_time_ms: 3 };
    match sup.finish(ProveOutcome::Proved(res)) {
        Ok(CalculationUpdate::ProofProvided { block_number, proof_result }) => {
            assert_eq!(block_number, 5);
            assert_eq!(proof_result.cycles, 2);
        }
        other => panic!("unexpected {:?}", other),
    }
    assert!(sup.is_ready());
}

#[test]
fn supervisor_rebuilds_after_panic() {
    let mut sup = ProverSupervisor::new();
    sup.begin(8).unwrap();
    assert_eq!(sup.finish(ProveOutcome::Panicked).unwrap_err(), ProverError::ProverPanicked);
    assert!(sup.needs_rebuild());
    assert!(sup.begin(9).is_none());
    sup.rebuilt();
    assert!(sup.begin(9).is_some());
    assert_eq!(sup.finish(ProveOutcome::Failed).unwrap_err(), ProverError::ProveFailed);
    assert!(sup.is_ready());
}

#[test]
fn bin_suffix_is_stripped() {
    assert_eq!(strip_bin_suffix("../../artifacts/app.bin"), "../../artifacts/app");
    assert_eq!(strip_bin_suffix("app"), "app");
    assert_eq!(strip_bin_suffix(".bin"), "");
    assert_eq!(strip_bin_suffix("app.binary"), "app.binary");
    assert_eq!(CpuWitnessGenerator::new("x.bin".to_string()).app_bin_path, "x.bin");
}

#[test]
fn join_failure_messages() {
    assert_eq!(join_failure_message(false, None), "Task was cancelled");
    assert_eq!(join_failure_message(true, Some("boom".to_string())), "boom");
    assert_eq!(join_failure_message(true, None), "Unknown panic");
}

#[test]
fn cpu_job_runner_task_failure_is_its_own_error() {
    let (mut job, _) = CpuWitnessJob::start(13, false);
    job.step(CpuEvent::ForwardRunSucceeded);
    let out = job.step(CpuEvent::RunnerTaskFailed);
    assert!(matches!(out, CpuCommand::Finish(Err(ProverError::WitnessTaskFailed))));
    assert_eq!(job.phase, CpuPhase::Finished);
}
