use vstd::prelude::*;

verus! {

/// A configuration that cannot be run.
#[derive(Clone, Copy, Debug, PartialEq, Eq, Structural)]
pub enum ConfigError {
    /// The stride between selected blocks is zero.
    BlockModZero,
    /// The offset within the stride is not below the stride.
    ProverIdOutOfRange,
    /// The chain head lies below the offset, so no block can be selected yet.
    CandidateBelowProverId,
    /// Continuous mode was asked for without an RPC endpoint.
    MissingRpcUrl,
    /// A block that is not cached was asked for without an RPC endpoint.
    BlockNotCachedWithoutRpc,
    /// Submission is enabled without a token.
    MissingEthproofsToken,
    /// Submission is enabled without a cluster id.
    MissingClusterId,
}

/// The kinds of failure of the pipeline.
#[derive(Clone, Copy, Debug, PartialEq, Eq, Structural)]
pub enum ProverError {
    Config(ConfigError),
    /// Transport failure, bad status or a missing block.
    Rpc,
    /// Witness data failed structural validation.
    InvalidWitness,
    /// The forward executor rejected the block.
    ForwardRunFailed,
    /// The zkVM runner returned its all-zero failure output.
    WitnessGenFailed,
    /// The zkVM runner's task panicked or was cancelled before it returned.
    WitnessTaskFailed,
    /// The prover returned an error.
    ProveFailed,
    /// The prover task panicked.
    ProverPanicked,
    /// A request to the proof registry failed for good.
    SubmissionFailed,
    /// A filesystem operation of the cache failed.
    CacheIo,
    /// Proof bytes could not be compressed or decompressed.
    ProofEncoding,
}

impl ConfigError {
    /// The text that describes the error.
    pub open spec fn text(self) -> Seq<char> {
        match self {
            ConfigError::BlockModZero => "block_mod must be greater than 0"@,
            ConfigError::ProverIdOutOfRange => "prover_id must be less than block_mod"@,
            ConfigError::CandidateBelowProverId =>
                "candidate block is below prover_id selection window"@,
            ConfigError::MissingRpcUrl => "RPC URL is required for continuous mode"@,
            ConfigError::BlockNotCachedWithoutRpc =>
                "Block number not cached and no RPC URL provided"@,
            ConfigError::MissingEthproofsToken =>
                "EthProofs submission token is required when submission is enabled"@,
            ConfigError::MissingClusterId =>
                "EthProofs cluster ID is required when submission is enabled"@,
        }
    }

    /// A description of the error for humans.
    pub fn message(&self) -> (r: String)
        ensures
            r@ == self.text(),
    {
        let s = match self {
            ConfigError::BlockModZero => "block_mod must be greater than 0",
            ConfigError::ProverIdOutOfRange => "prover_id must be less than block_mod",
            ConfigError::CandidateBelowProverId =>
                "candidate block is below prover_id selection window",
            ConfigError::MissingRpcUrl => "RPC URL is required for continuous mode",
            ConfigError::BlockNotCachedWithoutRpc =>
                "Block number not cached and no RPC URL provided",
            ConfigError::MissingEthproofsToken =>
                "EthProofs submission token is required when submission is enabled",
            ConfigError::MissingClusterId =>
                "EthProofs cluster ID is required when submission is enabled",
        };
        String::from_str(s)
    }
}

impl ProverError {
    /// A description of the error for humans.
    pub fn message(&self) -> (r: String)
        ensures
            self matches ProverError::Config(c) ==> r@ == c.text(),
    {
        match self {
            ProverError::Config(c) => c.message(),
            ProverError::Rpc => String::from_str("RPC request failed"),
            ProverError::InvalidWitness => String::from_str("invalid execution witness"),
            ProverError::ForwardRunFailed => String::from_str("forward run failed"),
            ProverError::WitnessGenFailed => String::from_str("witness generation failed"),
            ProverError::WitnessTaskFailed => String::from_str("witness generation task did not return"),
            ProverError::ProveFailed => String::from_str("proving failed"),
            ProverError::ProverPanicked => String::from_str("prover task panicked"),
            ProverError::SubmissionFailed => String::from_str("proof registry request failed"),
            ProverError::CacheIo => String::from_str("cache I/O failed"),
            ProverError::ProofEncoding => String::from_str("proof encoding failed"),
        }
    }
}

} // verus!
