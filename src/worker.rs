use vstd::prelude::*;

use crate::error::ProverError;
use crate::types::OnFailure;

verus! {

/// What a proving run produced for a block.
#[derive(Clone, Debug)]
pub struct ProofResult {
    /// The proof in the prover's binary encoding.
    pub proof_bytes: Vec<u8>,
    pub cycles: u64,
    /// Wall time of the proving run, in milliseconds.
    pub proving_time_ms: u64,
}

/// A message that moves downstream from a prover worker.
#[derive(Clone, Debug)]
pub enum CalculationUpdate {
    WitnessCalculated { block_number: u64, witness_words: Vec<u32> },
    ProofQueued { block_number: u64 },
    ProofProving { block_number: u64 },
    ProofProvided { block_number: u64, proof_result: ProofResult },
}

impl CalculationUpdate {
    pub open spec fn spec_block_number(&self) -> u64 {
        match self {
            CalculationUpdate::WitnessCalculated { block_number, .. } => *block_number,
            CalculationUpdate::ProofQueued { block_number } => *block_number,
            CalculationUpdate::ProofProving { block_number } => *block_number,
            CalculationUpdate::ProofProvided { block_number, .. } => *block_number,
        }
    }

    /// Whether the update reports that a block was completed successfully.
    pub open spec fn spec_completes_block(&self) -> bool {
        ||| self is WitnessCalculated
        ||| self is ProofProvided
    }

    /// The block that the update is about.
    #[verifier::when_used_as_spec(spec_block_number)]
    pub fn block_number(&self) -> (r: u64)
        ensures
            r == self.spec_block_number(),
    {
        match self {
            CalculationUpdate::WitnessCalculated { block_number, .. } => *block_number,
            CalculationUpdate::ProofQueued { block_number } => *block_number,
            CalculationUpdate::ProofProving { block_number } => *block_number,
            CalculationUpdate::ProofProvided { block_number, .. } => *block_number,
        }
    }

    #[verifier::when_used_as_spec(spec_completes_block)]
    pub fn completes_block(&self) -> (r: bool)
        ensures
            r == self.spec_completes_block(),
    {
        match self {
            CalculationUpdate::WitnessCalculated { .. } => true,
            CalculationUpdate::ProofProvided { .. } => true,
            CalculationUpdate::ProofQueued { .. } => false,
            CalculationUpdate::ProofProving { .. } => false,
        }
    }
}

/// What a worker does once a block has been attempted.
#[derive(Debug)]
pub enum BlockConclusion {
    /// Send the update downstream and take the next block.
    Emit(CalculationUpdate),
    /// Report the error and take the next block.
    Skip(ProverError),
    /// Report the error and end the pipeline with it.
    Stop(ProverError),
}

/// Applies the failure policy to the outcome of one block: a success is
/// emitted; a failure ends the pipeline under `Exit` and is skipped under
/// `Continue`. Every failure is reported either way.
pub fn conclude_block(on_failure: OnFailure, outcome: Result<CalculationUpdate, ProverError>) -> (r:
    BlockConclusion)
    ensures
        match outcome {
            Ok(u) => r == BlockConclusion::Emit(u),
            Err(e) => match on_failure {
                OnFailure::Exit => r == BlockConclusion::Stop(e),
                OnFailure::Continue => r == BlockConclusion::Skip(e),
            },
        },
{
    match outcome {
        Ok(u) => BlockConclusion::Emit(u),
        Err(e) => match on_failure {
            OnFailure::Exit => BlockConclusion::Stop(e),
            OnFailure::Continue => BlockConclusion::Skip(e),
        },
    }
}

/// Whether every word of a runner output is zero, the runner's failure mark.
pub open spec fn all_zero(output: Seq<u32>) -> bool {
    forall|i: int| 0 <= i < output.len() ==> output[i] == 0
}

/// Turns what the zkVM runner returned for a block into the worker's outcome:
/// an all-zero output is a failed witness generation; any other output yields
/// the words that the runner read.
pub fn witness_outcome(block_number: u64, output: &[u32; 8], witness_words: Vec<u32>) -> (r: Result<
    CalculationUpdate,
    ProverError,
>)
    ensures
        all_zero(output@) ==> r == Err::<CalculationUpdate, ProverError>(
            ProverError::WitnessGenFailed,
        ),
        !all_zero(output@) ==> r == Ok::<CalculationUpdate, ProverError>(
            CalculationUpdate::WitnessCalculated { block_number, witness_words },
        ),
{
    let mut i: usize = 0;
    while i < 8
        invariant
            i <= 8,
            output@.len() == 8,
            forall|k: int| 0 <= k < i ==> output@[k] == 0,
        decreases 8 - i,
    {
        if output[i] != 0 {
            return Ok(CalculationUpdate::WitnessCalculated { block_number, witness_words });
        }
        i = i + 1;
    }
    Err(ProverError::WitnessGenFailed)
}

/// Where the CPU-witness work on one block stands.
#[derive(Clone, Copy, Debug, PartialEq, Eq, Structural)]
pub enum CpuPhase {
    /// Waiting for the forward run.
    ForwardRun,
    /// The forward run failed; waiting for the debug replay.
    DebugReplay,
    /// The forward run succeeded; waiting for the zkVM runner.
    WitnessGeneration,
    /// The block has its outcome.
    Finished,
}

/// What the caller is asked to do next for the block.
#[derive(Debug)]
pub enum CpuCommand {
    /// Build an oracle from the block input and run the executor forward.
    RunForward,
    /// Build an oracle and replay the block against the canonical receipts.
    RunDebugReplay,
    /// Build an oracle and run the zkVM runner on it.
    GenerateWitness,
    /// The block is done, with this outcome.
    Finish(Result<CalculationUpdate, ProverError>),
}

/// What happened to the last command.
#[derive(Debug)]
pub enum CpuEvent {
    /// The oracle could not be built from the block input.
    OracleInvalid,
    ForwardRunSucceeded,
    ForwardRunFailed,
    /// The debug replay ended; its findings are advisory and its errors are
    /// not propagated.
    DebugReplayFinished,
    /// The zkVM runner returned `output`, having read `witness_words`.
    WitnessGenerated { output: [u32; 8], witness_words: Vec<u32> },
    /// The task running the zkVM runner panicked or was cancelled.
    RunnerTaskFailed,
}

/// The CPU-witness work on one block: a forward run must succeed before the
/// witness is generated; a failed forward run is replayed for diagnosis when
/// an RPC endpoint is at hand, and fails the block either way.
#[derive(Clone, Copy, Debug)]
pub struct CpuWitnessJob {
    pub block_number: u64,
    /// Whether an RPC endpoint is available for a debug replay.
    pub can_debug: bool,
    pub phase: CpuPhase,
}

/// The command that stands while the job is in `phase`, before any event.
pub open spec fn pending_command_is(phase: CpuPhase, c: CpuCommand) -> bool {
    match phase {
        CpuPhase::ForwardRun => c is RunForward,
        CpuPhase::DebugReplay => c is RunDebugReplay,
        CpuPhase::WitnessGeneration => c is GenerateWitness,
        CpuPhase::Finished => c is Finish,
    }
}

/// The phase that follows `phase` on `event`.
pub open spec fn cpu_next_phase(phase: CpuPhase, can_debug: bool, event: CpuEvent) -> CpuPhase {
    match (phase, event) {
        (CpuPhase::ForwardRun, CpuEvent::OracleInvalid) => CpuPhase::Finished,
        (CpuPhase::ForwardRun, CpuEvent::ForwardRunSucceeded) => CpuPhase::WitnessGeneration,
        (CpuPhase::ForwardRun, CpuEvent::ForwardRunFailed) => if can_debug {
            CpuPhase::DebugReplay
        } else {
            CpuPhase::Finished
        },
        (CpuPhase::DebugReplay, CpuEvent::DebugReplayFinished) => CpuPhase::Finished,
        (CpuPhase::DebugReplay, CpuEvent::OracleInvalid) => CpuPhase::Finished,
        (CpuPhase::WitnessGeneration, CpuEvent::OracleInvalid) => CpuPhase::Finished,
        (CpuPhase::WitnessGeneration, CpuEvent::WitnessGenerated { .. }) => CpuPhase::Finished,
        (CpuPhase::WitnessGeneration, CpuEvent::RunnerTaskFailed) => CpuPhase::Finished,
        _ => phase,
    }
}

/// The outcome with which a job that has just finished on `event` ends.
pub open spec fn cpu_outcome_is(
    phase: CpuPhase,
    block_number: u64,
    event: CpuEvent,
    r: Result<CalculationUpdate, ProverError>,
) -> bool {
    match (phase, event) {
        (CpuPhase::ForwardRun, CpuEvent::OracleInvalid) => r == Err::<
            CalculationUpdate,
            ProverError,
        >(ProverError::InvalidWitness),
        (CpuPhase::WitnessGeneration, CpuEvent::OracleInvalid) => r == Err::<
            CalculationUpdate,
            ProverError,
        >(ProverError::InvalidWitness),
        (CpuPhase::WitnessGeneration, CpuEvent::WitnessGenerated { output, witness_words }) => if all_zero(
            output@,
        ) {
            r == Err::<CalculationUpdate, ProverError>(ProverError::WitnessGenFailed)
        } else {
            r == Ok::<CalculationUpdate, ProverError>(
                CalculationUpdate::WitnessCalculated { block_number, witness_words },
            )
        },
        (CpuPhase::WitnessGeneration, CpuEvent::RunnerTaskFailed) => r == Err::<
            CalculationUpdate,
            ProverError,
        >(ProverError::WitnessTaskFailed),
        _ => r == Err::<CalculationUpdate, ProverError>(ProverError::ForwardRunFailed),
    }
}

impl CpuWitnessJob {
    /// Starts the work on a block with its forward run.
    pub fn start(block_number: u64, can_debug: bool) -> (r: (CpuWitnessJob, CpuCommand))
        ensures
            r.0.block_number == block_number,
            r.0.can_debug == can_debug,
            r.0.phase == CpuPhase::ForwardRun,
            r.1 is RunForward,
    {
        (CpuWitnessJob { block_number, can_debug, phase: CpuPhase::ForwardRun }, CpuCommand::RunForward)
    }

    /// Takes the outcome of the last command and returns the next one. An
    /// event that does not answer the pending command leaves the job as it
    /// was, and the pending command stands.
    pub fn step(&mut self, event: CpuEvent) -> (r: CpuCommand)
        requires
            old(self).phase != CpuPhase::Finished,
        ensures
            final(self).block_number == old(self).block_number,
            final(self).can_debug == old(self).can_debug,
            final(self).phase == cpu_next_phase(old(self).phase, old(self).can_debug, event),
            final(self).phase == old(self).phase ==> pending_command_is(old(self).phase, r),
            final(self).phase != old(self).phase && final(self).phase != CpuPhase::Finished
                ==> pending_command_is(final(self).phase, r),
            final(self).phase == CpuPhase::Finished ==> (r matches CpuCommand::Finish(o)
                && cpu_outcome_is(old(self).phase, old(self).block_number, event, o)),
    {
        let block_number = self.block_number;
        match self.phase {
            CpuPhase::ForwardRun => match event {
                CpuEvent::OracleInvalid => {
                    self.phase = CpuPhase::Finished;
                    CpuCommand::Finish(Err(ProverError::InvalidWitness))
                },
                CpuEvent::ForwardRunSucceeded => {
                    self.phase = CpuPhase::WitnessGeneration;
                    CpuCommand::GenerateWitness
                },
                CpuEvent::ForwardRunFailed => {
                    if self.can_debug {
                        self.phase = CpuPhase::DebugReplay;
                        CpuCommand::RunDebugReplay
                    } else {
                        self.phase = CpuPhase::Finished;
                        CpuCommand::Finish(Err(ProverError::ForwardRunFailed))
                    }
                },
                _ => CpuCommand::RunForward,
            },
            CpuPhase::DebugReplay => match event {
                CpuEvent::DebugReplayFinished | CpuEvent::OracleInvalid => {
                    self.phase = CpuPhase::Finished;
                    CpuCommand::Finish(Err(ProverError::ForwardRunFailed))
                },
                _ => CpuCommand::RunDebugReplay,
            },
            CpuPhase::WitnessGeneration => match event {
                CpuEvent::OracleInvalid => {
                    self.phase = CpuPhase::Finished;
                    CpuCommand::Finish(Err(ProverError::InvalidWitness))
                },
                CpuEvent::WitnessGenerated { output, witness_words } => {
                    self.phase = CpuPhase::Finished;
                    CpuCommand::Finish(witness_outcome(block_number, &output, witness_words))
                },
                CpuEvent::RunnerTaskFailed => {
                    self.phase = CpuPhase::Finished;
                    CpuCommand::Finish(Err(ProverError::WitnessTaskFailed))
                },
                _ => CpuCommand::GenerateWitness,
            },
            CpuPhase::Finished => CpuCommand::Finish(Err(ProverError::ForwardRunFailed)),
        }
    }
}

/// The state of the single long-lived prover handle.
#[derive(Clone, Copy, Debug, PartialEq, Eq, Structural)]
pub enum ProverState {
    /// The handle can take a block.
    Ready,
    /// The handle is proving this block; nothing else may use it.
    Proving { block_number: u64 },
    /// A proving run panicked; the handle must be built anew before any
    /// other block is proved.
    NeedsRebuild,
}

/// How a proving run on the handle ended.
#[derive(Debug)]
pub enum ProveOutcome {
    /// The oracle could not be built from the block input.
    OracleInvalid,
    Proved(ProofResult),
    /// The prover returned an error.
    Failed,
    /// The proving task panicked, which may leave the handle unusable.
    Panicked,
}

/// Owns the prover handle's state, so that at most one proving run is in
/// flight and a panicked handle is replaced before it is used again.
#[derive(Clone, Copy, Debug)]
pub struct ProverSupervisor {
    pub state: ProverState,
}

impl ProverSupervisor {
    /// A supervisor over a freshly built handle.
    pub fn new() -> (r: ProverSupervisor)
        ensures
            r.state == ProverState::Ready,
    {
        ProverSupervisor { state: ProverState::Ready }
    }

    pub fn is_ready(&self) -> (r: bool)
        ensures
            r == (self.state == ProverState::Ready),
    {
        matches!(self.state, ProverState::Ready)
    }

    pub fn needs_rebuild(&self) -> (r: bool)
        ensures
            r == (self.state == ProverState::NeedsRebuild),
    {
        matches!(self.state, ProverState::NeedsRebuild)
    }

    pub fn is_proving(&self) -> (r: bool)
        ensures
            r == (self.state is Proving),
    {
        matches!(self.state, ProverState::Proving { .. })
    }

    /// Takes the handle for `block_number` and returns the updates to send
    /// before proving starts: queued, then proving. Returns `None`, and
    /// changes nothing, while the handle is busy or awaits a rebuild.
    pub fn begin(&mut self, block_number: u64) -> (r: Option<Vec<CalculationUpdate>>)
        ensures
            old(self).state == ProverState::Ready ==> {
                &&& final(self).state == (ProverState::Proving { block_number })
                &&& r matches Some(v) && v@.len() == 2
                    && v@[0] == (CalculationUpdate::ProofQueued { block_number })
                    && v@[1] == (CalculationUpdate::ProofProving { block_number })
            },
            old(self).state != ProverState::Ready ==> {
                &&& final(self).state == old(self).state
                &&& r is None
            },
    {
        if !self.is_ready() {
            return None;
        }
        self.state = ProverState::Proving { block_number };
        let mut v: Vec<CalculationUpdate> = Vec::new();
        v.push(CalculationUpdate::ProofQueued { block_number });
        v.push(CalculationUpdate::ProofProving { block_number });
        Some(v)
    }

    /// Releases the handle with the outcome of the run and returns the
    /// block's outcome. A panic leaves the handle awaiting a rebuild.
    pub fn finish(&mut self, outcome: ProveOutcome) -> (r: Result<CalculationUpdate, ProverError>)
        requires
            old(self).state is Proving,
        ensures
            ({
                let block_number = old(self).state->block_number;
                match outcome {
                    ProveOutcome::OracleInvalid => {
                        &&& r == Err::<CalculationUpdate, ProverError>(ProverError::InvalidWitness)
                        &&& final(self).state == ProverState::Ready
                    },
                    ProveOutcome::Proved(proof_result) => {
                        &&& r == Ok::<CalculationUpdate, ProverError>(
                            CalculationUpdate::ProofProvided { block_number, proof_result },
                        )
                        &&& final(self).state == ProverState::Ready
                    },
                    ProveOutcome::Failed => {
                        &&& r == Err::<CalculationUpdate, ProverError>(ProverError::ProveFailed)
                        &&& final(self).state == ProverState::Ready
                    },
                    ProveOutcome::Panicked => {
                        &&& r == Err::<CalculationUpdate, ProverError>(ProverError::ProverPanicked)
                        &&& final(self).state == ProverState::NeedsRebuild
                    },
                }
            }),
    {
        let block_number = match self.state {
            ProverState::Proving { block_number } => block_number,
            _ => 0,
        };
        match outcome {
            ProveOutcome::OracleInvalid => {
                self.state = ProverState::Ready;
                Err(ProverError::InvalidWitness)
            },
            ProveOutcome::Proved(proof_result) => {
                self.state = ProverState::Ready;
                Ok(CalculationUpdate::ProofProvided { block_number, proof_result })
            },
            ProveOutcome::Failed => {
                self.state = ProverState::Ready;
                Err(ProverError::ProveFailed)
            },
            ProveOutcome::Panicked => {
                self.state = ProverState::NeedsRebuild;
                Err(ProverError::ProverPanicked)
            },
        }
    }

    /// Records that a fresh handle replaced the panicked one.
    pub fn rebuilt(&mut self)
        requires
            old(self).state == ProverState::NeedsRebuild,
        ensures
            final(self).state == ProverState::Ready,
    {
        self.state = ProverState::Ready;
    }
}

/// Whether `s` ends with `suffix`.
pub open spec fn has_suffix(s: Seq<char>, suffix: Seq<char>) -> bool {
    s.len() >= suffix.len() && s.subrange(s.len() - suffix.len(), s.len() as int) == suffix
}

/// The base path of a prover image: the image path without its `.bin`
/// extension, where it has one.
pub fn strip_bin_suffix(path: &str) -> (r: String)
    ensures
        has_suffix(path@, ".bin"@) ==> r@ == path@.subrange(0, path@.len() - 4),
        !has_suffix(path@, ".bin"@) ==> r@ == path@,
{
    proof {
        reveal_strlit(".bin");
    }
    let n = path.unicode_len();
    if n >= 4 && path.get_char(n - 4) == '.' && path.get_char(n - 3) == 'b' && path.get_char(n - 2)
        == 'i' && path.get_char(n - 1) == 'n' {
        assert(path@.subrange(n - 4, n as int) =~= ".bin"@);
        String::from_str(path.substring_char(0, n - 4))
    } else {
        assert(has_suffix(path@, ".bin"@) ==> path@.subrange(n - 4, n as int)[0] == '.');
        assert(has_suffix(path@, ".bin"@) ==> path@.subrange(n - 4, n as int)[1] == 'b');
        assert(has_suffix(path@, ".bin"@) ==> path@.subrange(n - 4, n as int)[2] == 'i');
        assert(has_suffix(path@, ".bin"@) ==> path@.subrange(n - 4, n as int)[3] == 'n');
        String::from_str(path)
    }
}

/// The CPU-witness generator: runs a block forward and through the zkVM
/// runner with the prover image at `app_bin_path`.
#[derive(Clone, Debug)]
pub struct CpuWitnessGenerator {
    pub app_bin_path: String,
}

impl CpuWitnessGenerator {
    pub fn new(app_bin_path: String) -> (r: CpuWitnessGenerator)
        ensures
            r.app_bin_path@ == app_bin_path@,
    {
        CpuWitnessGenerator { app_bin_path }
    }
}

/// Describes why a blocking task did not return: the text of its panic, or
/// that it was cancelled.
pub fn join_failure_message(panicked: bool, payload: Option<String>) -> (r: String)
    ensures
        !panicked ==> r@ == "Task was cancelled"@,
        panicked && payload is Some ==> r@ == payload->Some_0@,
        panicked && payload is None ==> r@ == "Unknown panic"@,
{
    if !panicked {
        String::from_str("Task was cancelled")
    } else {
        match payload {
            Some(p) => p,
            None => String::from_str("Unknown panic"),
        }
    }
}

} // verus!
