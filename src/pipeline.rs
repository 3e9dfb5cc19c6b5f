use vstd::prelude::*;

use crate::cache::CacheManager;
use crate::error::{ConfigError, ProverError};
use crate::ethproofs::{production_url, staging_url, EthproofsClient};
use crate::types::{CachePolicy, EthProofsSubmission, Mode, OnFailure};

verus! {

/// Capacity of the channel behind the continuous block source.
pub const CONTINUOUS_CHANNEL_CAPACITY: usize = 10;

/// Capacity of the channel behind the single-block source.
pub const SINGLE_BLOCK_CHANNEL_CAPACITY: usize = 1;

/// Capacity of the channels that carry updates.
pub const UPDATE_CHANNEL_CAPACITY: usize = 10;

/// Seconds between two polls of the chain head.
pub const POLL_INTERVAL_SECS: u64 = 2;

/// What the command line asks for.
#[derive(Clone, Copy, Debug, PartialEq, Eq, Structural)]
pub enum Command {
    /// Prove one block; the chain head when no number is given.
    Block { block_number: Option<u64> },
    /// Prove blocks continuously as the chain grows.
    Run,
}

/// The command line.
#[derive(Clone, Debug)]
pub struct Cli {
    /// Path of a YAML configuration file.
    pub config: Option<String>,
    pub command: Command,
}

/// The prover's configuration.
#[derive(Clone, Debug)]
pub struct EthProverConfig {
    /// RISC-V executable to use for proving.
    pub app_bin_path: String,
    pub mode: Mode,
    pub cache_policy: CachePolicy,
    pub ethproofs_submission: EthProofsSubmission,
    /// Process only every N-th block.
    pub block_mod: u64,
    /// Offset of this prover within the stride of `block_mod` blocks.
    pub prover_id: u64,
    pub on_failure: OnFailure,
    pub rpc_url: Option<String>,
    pub ethproofs_token: Option<String>,
    pub ethproofs_cluster_id: Option<u64>,
    pub sentry_dsn: Option<String>,
    pub prometheus_port: Option<u16>,
}

impl Default for EthProverConfig {
    fn default() -> (r: EthProverConfig)
        ensures
            r.app_bin_path@ == "../../artifacts/app.bin"@,
            r.mode == Mode::CpuWitness,
            r.cache_policy == CachePolicy::OnFailure,
            r.ethproofs_submission == EthProofsSubmission::Off,
            r.block_mod == 1,
            r.prover_id == 0,
            r.on_failure == OnFailure::Exit,
            r.rpc_url is None,
            r.ethproofs_token is None,
            r.ethproofs_cluster_id is None,
            r.sentry_dsn is None,
            r.prometheus_port is None,
    {
        EthProverConfig {
            app_bin_path: String::from_str("../../artifacts/app.bin"),
            mode: Mode::CpuWitness,
            cache_policy: CachePolicy::OnFailure,
            ethproofs_submission: EthProofsSubmission::Off,
            block_mod: 1,
            prover_id: 0,
            on_failure: OnFailure::Exit,
            rpc_url: None,
            ethproofs_token: None,
            ethproofs_cluster_id: None,
            sentry_dsn: None,
            prometheus_port: None,
        }
    }
}

/// Where blocks come from.
#[derive(Clone, Debug)]
pub enum SourcePlan {
    /// Poll the chain head and select blocks by stride.
    Continuous { rpc_url: String, prover_id: u64, block_mod: u64 },
    /// Emit one block, from the cache where possible.
    SingleBlock { block_number: Option<u64>, rpc_url: Option<String> },
}

/// Which prover worker consumes the blocks.
#[derive(Clone, Debug)]
pub enum WorkerPlan {
    CpuWitness { app_bin_path: String, on_failure: OnFailure, rpc_url: Option<String> },
    GpuProve { app_bin_path: String, on_failure: OnFailure },
}

/// What consumes the updates at the end of the pipeline.
#[derive(Clone, Debug)]
pub enum SubmitterPlan {
    NoOp,
    Upload(EthproofsClient),
}

/// The components of a pipeline and how they are wired.
#[derive(Clone, Debug)]
pub struct PipelinePlan {
    pub source: SourcePlan,
    /// Capacity of the channel between the source and the worker.
    pub source_capacity: usize,
    pub cache_policy: CachePolicy,
    pub worker: WorkerPlan,
    /// Present in continuous mode only: a single-block run keeps its cache
    /// entry for inspection.
    pub cache_manager: Option<CacheManager>,
    pub submitter: SubmitterPlan,
}

/// Builds the pipeline.
#[derive(Clone, Copy, Debug)]
pub struct Runner {}

fn clone_opt(s: &Option<String>) -> (r: Option<String>)
    ensures
        r is Some <==> s is Some,
        r is Some ==> r->Some_0@ == s->Some_0@,
{
    match s {
        Some(v) => Some(v.clone()),
        None => None,
    }
}

/// The error, if any, with which a command and a configuration are refused,
/// in the order in which they are checked.
pub open spec fn plan_error(command: Command, config: EthProverConfig) -> Option<ConfigError> {
    if command is Run && config.rpc_url is None {
        Some(ConfigError::MissingRpcUrl)
    } else if config.ethproofs_submission.spec_enabled() && config.ethproofs_token is None {
        Some(ConfigError::MissingEthproofsToken)
    } else if config.ethproofs_submission.spec_enabled() && config.ethproofs_cluster_id is None {
        Some(ConfigError::MissingClusterId)
    } else {
        None
    }
}

impl Runner {
    pub fn new() -> (r: Runner) {
        Runner {  }
    }

    /// Decides the pipeline for a command and a configuration. Continuous
    /// mode needs an RPC endpoint and gets a cache manager; a single-block run
    /// gets none. Submission, when enabled, needs a token and a cluster id.
    pub fn plan(&self, command: Command, config: &EthProverConfig) -> (r: Result<
        PipelinePlan,
        ProverError,
    >)
        ensures
            match plan_error(command, *config) {
                Some(e) => r == Err::<PipelinePlan, ProverError>(ProverError::Config(e)),
                None => r matches Ok(p) && {
                    &&& p.cache_policy == config.cache_policy
                    &&& match command {
                        Command::Run => {
                            &&& p.source matches SourcePlan::Continuous {
                                rpc_url,
                                prover_id,
                                block_mod,
                            } && rpc_url@ == config.rpc_url->Some_0@ && prover_id
                                == config.prover_id && block_mod == config.block_mod
                            &&& p.source_capacity == CONTINUOUS_CHANNEL_CAPACITY
                            &&& p.cache_manager == Some(CacheManager { cache_policy: config.cache_policy })
                        },
                        Command::Block { block_number } => {
                            &&& p.source matches SourcePlan::SingleBlock { block_number: b, rpc_url }
                                && b == block_number && (rpc_url is Some <==> config.rpc_url is Some)
                                && (rpc_url is Some ==> rpc_url->Some_0@ == config.rpc_url->Some_0@)
                            &&& p.source_capacity == SINGLE_BLOCK_CHANNEL_CAPACITY
                            &&& p.cache_manager is None
                        },
                    }
                    &&& match config.mode {
                        Mode::CpuWitness => p.worker matches WorkerPlan::CpuWitness {
                            app_bin_path,
                            on_failure,
                            rpc_url,
                        } && app_bin_path@ == config.app_bin_path@ && on_failure == config.on_failure
                            && (rpc_url is Some <==> config.rpc_url is Some) && (rpc_url is Some
                            ==> rpc_url->Some_0@ == config.rpc_url->Some_0@),
                        Mode::GpuProve => p.worker matches WorkerPlan::GpuProve {
                            app_bin_path,
                            on_failure,
                        } && app_bin_path@ == config.app_bin_path@ && on_failure == config.on_failure,
                    }
                    &&& if config.ethproofs_submission.spec_enabled() {
                        p.submitter matches SubmitterPlan::Upload(c) && {
                            &&& c.auth_token@ == config.ethproofs_token->Some_0@
                            &&& c.cluster_id == config.ethproofs_cluster_id->Some_0
                            &&& c.url@ == if config.ethproofs_submission.spec_is_staging() {
                                staging_url()
                            } else {
                                production_url()
                            }
                        }
                    } else {
                        p.submitter is NoOp
                    }
                },
            },
    {
        let (source, source_capacity, cache_manager) = match command {
            Command::Run => {
                let rpc_url = match &config.rpc_url {
                    Some(u) => u.clone(),
                    None => return Err(ProverError::Config(ConfigError::MissingRpcUrl)),
                };
                (
                    SourcePlan::Continuous {
                        rpc_url,
                        prover_id: config.prover_id,
                        block_mod: config.block_mod,
                    },
                    CONTINUOUS_CHANNEL_CAPACITY,
                    Some(CacheManager::new(config.cache_policy)),
                )
            },
            Command::Block { block_number } => (
                SourcePlan::SingleBlock { block_number, rpc_url: clone_opt(&config.rpc_url) },
                SINGLE_BLOCK_CHANNEL_CAPACITY,
                None,
            ),
        };
        let worker = match config.mode {
            Mode::CpuWitness => WorkerPlan::CpuWitness {
                app_bin_path: config.app_bin_path.clone(),
                on_failure: config.on_failure,
                rpc_url: clone_opt(&config.rpc_url),
            },
            Mode::GpuProve => WorkerPlan::GpuProve {
                app_bin_path: config.app_bin_path.clone(),
                on_failure: config.on_failure,
            },
        };
        let submitter = if config.ethproofs_submission.enabled() {
            let token = match &config.ethproofs_token {
                Some(t) => t.clone(),
                None => return Err(ProverError::Config(ConfigError::MissingEthproofsToken)),
            };
            let cluster_id = match config.ethproofs_cluster_id {
                Some(c) => c,
                None => return Err(ProverError::Config(ConfigError::MissingClusterId)),
            };
            SubmitterPlan::Upload(
                EthproofsClient::new(config.ethproofs_submission.is_staging(), token, cluster_id),
            )
        } else {
            SubmitterPlan::NoOp
        };
        Ok(
            PipelinePlan {
                source,
                source_capacity,
                cache_policy: config.cache_policy,
                worker,
                cache_manager,
                submitter,
            },
        )
    }
}

} // verus!
