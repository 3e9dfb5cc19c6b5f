use vstd::prelude::*;

verus! {

/// Which prover worker the pipeline runs.
#[derive(Clone, Copy, Debug, PartialEq, Eq, Structural)]
pub enum Mode {
    CpuWitness,
    GpuProve,
}

/// What the cache keeps of a block.
#[derive(Clone, Copy, Debug, PartialEq, Eq, Structural)]
pub enum CachePolicy {
    /// Nothing is ever written to the cache.
    Off,
    /// Entries are written, and pruned once their block succeeded.
    OnFailure,
    /// Entries are written and kept.
    Always,
}

/// Where proofs and status updates are submitted.
#[derive(Clone, Copy, Debug, PartialEq, Eq, Structural)]
pub enum EthProofsSubmission {
    Off,
    Staging,
    Prod,
}

/// How a prover worker reacts to a failed block.
#[derive(Clone, Copy, Debug, PartialEq, Eq, Structural)]
pub enum OnFailure {
    /// The error ends the pipeline.
    Exit,
    /// The error is reported and the worker takes the next block.
    Continue,
}

impl CachePolicy {
    /// Whether fetched blocks are written to the cache.
    pub open spec fn spec_writes_cache(self) -> bool {
        self != CachePolicy::Off
    }

    /// Whether an entry is removed once its block has succeeded.
    pub open spec fn spec_prunes_on_success(self) -> bool {
        self == CachePolicy::OnFailure
    }

    #[verifier::when_used_as_spec(spec_writes_cache)]
    pub fn writes_cache(self) -> (r: bool)
        ensures
            r == self.spec_writes_cache(),
    {
        !matches!(self, CachePolicy::Off)
    }

    #[verifier::when_used_as_spec(spec_prunes_on_success)]
    pub fn prunes_on_success(self) -> (r: bool)
        ensures
            r == self.spec_prunes_on_success(),
    {
        matches!(self, CachePolicy::OnFailure)
    }
}

impl EthProofsSubmission {
    pub open spec fn spec_enabled(&self) -> bool {
        *self != EthProofsSubmission::Off
    }

    pub open spec fn spec_is_staging(&self) -> bool {
        *self == EthProofsSubmission::Staging
    }

    /// Whether updates are submitted at all.
    #[verifier::when_used_as_spec(spec_enabled)]
    pub fn enabled(&self) -> (r: bool)
        ensures
            r == self.spec_enabled(),
    {
        match self {
            EthProofsSubmission::Off => false,
            EthProofsSubmission::Staging | EthProofsSubmission::Prod => true,
        }
    }

    /// Whether the staging registry is the target.
    #[verifier::when_used_as_spec(spec_is_staging)]
    pub fn is_staging(&self) -> (r: bool)
        ensures
            r == self.spec_is_staging(),
    {
        matches!(self, EthProofsSubmission::Staging)
    }
}

} // verus!
