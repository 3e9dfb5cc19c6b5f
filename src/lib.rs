//! Decision logic of a block-proving worker for an Ethereum-compatible chain.
//!
//! The library holds the parts of the proving pipeline that decide: which
//! block a worker proves, what the cache keeps, how a worker reacts to each
//! outcome of a block, how the proof registry is addressed and how a request
//! to it is retried. Everything that waits on the network, the disk or the
//! prover engine is left to the caller, which hands each outcome back here.

pub mod cache;
pub mod codec;
pub mod debug;
pub mod error;
pub mod ethproofs;
pub mod oracle;
pub mod pipeline;
pub mod selection;
pub mod source;
pub mod types;
pub mod worker;

pub use cache::{
    decimal_string, join_path, receipt_file, BlockCachePaths, CacheManager, CacheStorage, EntryFiles,
};
pub use codec::{base64_of, gzip_of};
pub use debug::{ReceiptFacts, TxDebugger, TxExecution, TxProblem};
pub use error::{ConfigError, ProverError};
pub use ethproofs::{
    decode_proof, decompress_proof, encode_proof, should_retry_error, should_retry_status,
    AttemptOutcome, EthProofPayload, EthproofsClient, ProofRequest, RequestBody, RequestRetry,
    RetryDecision, SubmissionRequest, BASE_BACKOFF_MS, CONNECT_TIMEOUT_SECS, MAX_ATTEMPTS,
    REQUEST_TIMEOUT_SECS,
};
pub use oracle::{account_keys, order_parent_headers, reversed};
pub use pipeline::{
    Cli, Command, EthProverConfig, PipelinePlan, Runner, SourcePlan, SubmitterPlan, WorkerPlan,
    CONTINUOUS_CHANNEL_CAPACITY, POLL_INTERVAL_SECS, SINGLE_BLOCK_CHANNEL_CAPACITY,
    UPDATE_CHANNEL_CAPACITY,
};
pub use selection::{select_block, BlockSelector};
pub use source::{cached_input, fetched_block, single_block_action, SingleBlockAction};
pub use types::{CachePolicy, EthProofsSubmission, Mode, OnFailure};
pub use worker::{
    conclude_block, witness_outcome, BlockConclusion, CalculationUpdate, CpuCommand, CpuEvent,
    CpuPhase, CpuWitnessGenerator, CpuWitnessJob, ProofResult, ProveOutcome, ProverState,
    ProverSupervisor, join_failure_message, strip_bin_suffix,
};
