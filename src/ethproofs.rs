use vstd::prelude::*;

use crate::codec::{base64_decode, base64_encode, base64_of, gunzip, gzip_best, gzip_of};
use crate::error::ProverError;
use crate::worker::{CalculationUpdate, ProofResult};

verus! {

/// Attempts made for one request before it fails for good.
pub const MAX_ATTEMPTS: u64 = 3;

/// The wait after the first failed attempt; it doubles after each further one.
pub const BASE_BACKOFF_MS: u64 = 200;

/// Request timeout, in seconds.
pub const REQUEST_TIMEOUT_SECS: u64 = 30;

/// Connect timeout, in seconds.
pub const CONNECT_TIMEOUT_SECS: u64 = 5;

pub open spec fn staging_url() -> Seq<char> {
    "https://staging--ethproofs.netlify.app/api/v0/"@
}

pub open spec fn production_url() -> Seq<char> {
    "https://ethproofs.netlify.app/api/v0/"@
}

/// The body of a status update.
#[derive(Clone, Copy, Debug, PartialEq, Eq, Structural)]
pub struct ProofRequest {
    pub block_number: u64,
    pub cluster_id: u64,
}

/// The body of a proof submission.
#[derive(Clone, Debug)]
pub struct EthProofPayload {
    pub block_number: u64,
    pub cluster_id: u64,
    /// Proving time in milliseconds.
    pub proving_time: u64,
    pub proving_cycles: u64,
    /// The proof, gzip-compressed, then base64-encoded.
    pub proof: String,
    pub verifier_id: String,
}

/// What is posted to the registry.
#[derive(Clone, Debug)]
pub enum RequestBody {
    Status(ProofRequest),
    Proof(EthProofPayload),
}

/// One request to the registry: the endpoint, the body, and the context that
/// a failure is reported with.
#[derive(Clone, Debug)]
pub struct SubmissionRequest {
    pub endpoint: String,
    pub body: RequestBody,
    pub context: String,
}

/// The addressing and identity of this worker fleet at the proof registry.
#[derive(Clone, Debug)]
pub struct EthproofsClient {
    pub auth_token: String,
    pub cluster_id: u64,
    pub url: String,
}

/// The encoded form of a proof: base64 of its gzip compression.
pub open spec fn encoded_proof(proof_bytes: Seq<u8>) -> Seq<char> {
    base64_of(gzip_of(proof_bytes))
}

/// Compresses proof bytes with gzip at the best level and encodes the result
/// in standard base64. Succeeds on every input.
pub fn encode_proof(proof_bytes: &[u8]) -> (r: Result<String, ProverError>)
    ensures
        r is Ok && r->Ok_0@ == encoded_proof(proof_bytes@),
{
    match gzip_best(proof_bytes) {
        Some(compressed) => Ok(base64_encode(compressed.as_slice())),
        None => Err(ProverError::ProofEncoding),
    }
}

/// Decompresses a gzip-compressed proof. A compressed proof gives back the
/// proof.
pub fn decompress_proof(proof_bytes: &[u8]) -> (r: Result<Vec<u8>, ProverError>)
    ensures
        forall|p: Seq<u8>| proof_bytes@ == #[trigger] gzip_of(p) ==> (r is Ok && r->Ok_0@ == p),
        r matches Err(e) ==> e == ProverError::ProofEncoding,
{
    match gunzip(proof_bytes) {
        Some(v) => Ok(v),
        None => Err(ProverError::ProofEncoding),
    }
}

/// Undoes `encode_proof`: base64-decodes, then decompresses. Whatever
/// `encode_proof` returned for some bytes decodes back to those bytes.
pub fn decode_proof(encoded: &str) -> (r: Result<Vec<u8>, ProverError>)
    ensures
        forall|p: Seq<u8>| encoded@ == #[trigger] encoded_proof(p) ==> (r is Ok && r->Ok_0@ == p),
        r matches Err(e) ==> e == ProverError::ProofEncoding,
{
    let compressed = match base64_decode(encoded) {
        Some(c) => c,
        None => return Err(ProverError::ProofEncoding),
    };
    let r = decompress_proof(compressed.as_slice());
    assert forall|p: Seq<u8>| encoded@ == #[trigger] encoded_proof(p) implies (r is Ok && r->Ok_0@
        == p) by {
        assert(encoded@ == base64_of(gzip_of(p)));
        assert(compressed@ == gzip_of(p));
    }
    r
}

impl EthproofsClient {
    /// A client of the staging registry or of the production one.
    pub fn new(staging: bool, auth_token: String, cluster_id: u64) -> (r: EthproofsClient)
        ensures
            r.auth_token@ == auth_token@,
            r.cluster_id == cluster_id,
            r.url@ == if staging {
                staging_url()
            } else {
                production_url()
            },
    {
        let url = if staging {
            String::from_str("https://staging--ethproofs.netlify.app/api/v0/")
        } else {
            String::from_str("https://ethproofs.netlify.app/api/v0/")
        };
        EthproofsClient { auth_token, cluster_id, url }
    }

    /// The request that marks a block as queued.
    pub fn queue_proof(&self, block_number: u64) -> (r: SubmissionRequest)
        ensures
            r.endpoint@ == self.url@ + "proofs/queued"@,
            r.body == RequestBody::Status(ProofRequest { block_number, cluster_id: self.cluster_id }),
            r.context@ == "ethproofs request update failed"@,
    {
        SubmissionRequest {
            endpoint: self.url.clone().concat("proofs/queued"),
            body: RequestBody::Status(ProofRequest { block_number, cluster_id: self.cluster_id }),
            context: String::from_str("ethproofs request update failed"),
        }
    }

    /// The request that marks a block as being proved.
    pub fn proving_proof(&self, block_number: u64) -> (r: SubmissionRequest)
        ensures
            r.endpoint@ == self.url@ + "proofs/proving"@,
            r.body == RequestBody::Status(ProofRequest { block_number, cluster_id: self.cluster_id }),
            r.context@ == "ethproofs request update failed"@,
    {
        SubmissionRequest {
            endpoint: self.url.clone().concat("proofs/proving"),
            body: RequestBody::Status(ProofRequest { block_number, cluster_id: self.cluster_id }),
            context: String::from_str("ethproofs request update failed"),
        }
    }

    /// The request that submits a proof, with the proof encoded by
    /// `encode_proof`. Succeeds on every input.
    pub fn send_proof(
        &self,
        block_number: u64,
        proof_bytes: &[u8],
        proving_time_ms: u64,
        cycles: u64,
    ) -> (r: Result<SubmissionRequest, ProverError>)
        ensures
            r is Ok,
            r matches Ok(req) ==> {
                &&& req.endpoint@ == self.url@ + "proofs/proved"@
                &&& req.context@ == "ethproofs submission failed"@
                &&& req.body matches RequestBody::Proof(p) && {
                    &&& p.block_number == block_number
                    &&& p.cluster_id == self.cluster_id
                    &&& p.proving_time == proving_time_ms
                    &&& p.proving_cycles == cycles
                    &&& p.proof@ == encoded_proof(proof_bytes@)
                    &&& p.verifier_id@ == "None"@
                }
            },
    {
        let proof = match encode_proof(proof_bytes) {
            Ok(p) => p,
            Err(e) => return Err(e),
        };
        let payload = EthProofPayload {
            block_number,
            cluster_id: self.cluster_id,
            proving_time: proving_time_ms,
            proving_cycles: cycles,
            proof,
            verifier_id: String::from_str("None"),
        };
        Ok(
            SubmissionRequest {
                endpoint: self.url.clone().concat("proofs/proved"),
                body: RequestBody::Proof(payload),
                context: String::from_str("ethproofs submission failed"),
            },
        )
    }

    /// The request, if any, that an update calls for: queued and proving
    /// updates are reported as status changes, a provided proof is submitted,
    /// and a calculated witness is not reported.
    pub fn request_for(&self, update: &CalculationUpdate) -> (r: Result<
        Option<SubmissionRequest>,
        ProverError,
    >)
        ensures
            update is WitnessCalculated ==> r matches Ok(None),
            *update matches CalculationUpdate::ProofQueued { block_number } ==> (r matches Ok(Some(
                req,
            )) && req.endpoint@ == self.url@ + "proofs/queued"@ && req.body == RequestBody::Status(
                ProofRequest { block_number, cluster_id: self.cluster_id },
            )),
            *update matches CalculationUpdate::ProofProving { block_number } ==> (r matches Ok(Some(
                req,
            )) && req.endpoint@ == self.url@ + "proofs/proving"@ && req.body
                == RequestBody::Status(ProofRequest { block_number, cluster_id: self.cluster_id })),
            *update matches CalculationUpdate::ProofProvided { block_number, proof_result } ==> {
                &&& r matches Ok(Some(req)) && {
                    &&& req.endpoint@ == self.url@ + "proofs/proved"@
                    &&& req.body matches RequestBody::Proof(p) && {
                        &&& p.block_number == block_number
                        &&& p.cluster_id == self.cluster_id
                        &&& p.proving_time == proof_result.proving_time_ms
                        &&& p.proving_cycles == proof_result.cycles
                        &&& p.proof@ == encoded_proof(proof_result.proof_bytes@)
                        &&& p.verifier_id@ == "None"@
                    }
                }
            },
    {
        match update {
            CalculationUpdate::WitnessCalculated { .. } => Ok(None),
            CalculationUpdate::ProofQueued { block_number } => Ok(Some(self.queue_proof(*block_number))),
            CalculationUpdate::ProofProving { block_number } => Ok(
                Some(self.proving_proof(*block_number)),
            ),
            CalculationUpdate::ProofProvided { block_number, proof_result } => {
                match self.send_proof(
                    *block_number,
                    proof_result.proof_bytes.as_slice(),
                    proof_result.proving_time_ms,
                    proof_result.cycles,
                ) {
                    Ok(req) => Ok(Some(req)),
                    Err(e) => Err(e),
                }
            },
        }
    }
}

/// Whether an HTTP status asks for another attempt: a server error or too
/// many requests.
pub open spec fn retryable_status(status: u16) -> bool {
    (500 <= status <= 599) || status == 429
}

/// Whether an HTTP status is a success.
pub open spec fn success_status(status: u16) -> bool {
    200 <= status <= 299
}

/// The wait, in milliseconds, after failed attempt number `attempt`.
pub open spec fn backoff_ms(attempt: nat) -> nat
    decreases attempt,
{
    if attempt <= 1 {
        BASE_BACKOFF_MS as nat
    } else {
        2 * backoff_ms((attempt - 1) as nat)
    }
}

pub fn should_retry_status(status: u16) -> (r: bool)
    ensures
        r == retryable_status(status),
{
    (500 <= status && status <= 599) || status == 429
}

/// Whether a transport error asks for another attempt: a timeout or a
/// failure to connect.
pub fn should_retry_error(is_timeout: bool, is_connect: bool) -> (r: bool)
    ensures
        r == (is_timeout || is_connect),
{
    is_timeout || is_connect
}

/// How one attempt at a request ended.
#[derive(Clone, Copy, Debug, PartialEq, Eq, Structural)]
pub enum AttemptOutcome {
    /// A response came back with this status.
    Status(u16),
    /// No response came back.
    TransportError { is_timeout: bool, is_connect: bool },
}

/// What to do after an attempt.
#[derive(Clone, Copy, Debug, PartialEq, Eq, Structural)]
pub enum RetryDecision {
    Succeeded,
    /// Wait this many milliseconds, then make the next attempt.
    RetryAfterMs(u64),
    /// The request failed for good.
    Failed,
}

/// The attempts made so far at one logical request.
#[derive(Clone, Copy, Debug)]
pub struct RequestRetry {
    /// The number of the attempt now being made, from 1.
    pub attempt: u64,
}

/// Whether an outcome asks for another attempt.
pub open spec fn retryable_outcome(outcome: AttemptOutcome) -> bool {
    match outcome {
        AttemptOutcome::Status(s) => retryable_status(s),
        AttemptOutcome::TransportError { is_timeout, is_connect } => is_timeout || is_connect,
    }
}

impl RequestRetry {
    pub open spec fn wf(&self) -> bool {
        1 <= self.attempt <= MAX_ATTEMPTS
    }

    /// The first attempt.
    pub fn new() -> (r: RequestRetry)
        ensures
            r.attempt == 1,
            r.wf(),
    {
        RequestRetry { attempt: 1 }
    }

    /// Takes the outcome of the current attempt. A success ends the request.
    /// A retryable outcome of an attempt before the last asks for a wait of
    /// `200 * 2^(attempt - 1)` ms and moves to the next attempt. Anything
    /// else fails the request.
    pub fn on_outcome(&mut self, outcome: AttemptOutcome) -> (r: RetryDecision)
        requires
            old(self).wf(),
        ensures
            final(self).wf(),
            outcome matches AttemptOutcome::Status(s) && success_status(s) ==> {
                &&& r == RetryDecision::Succeeded
                &&& final(self).attempt == old(self).attempt
            },
            !(outcome matches AttemptOutcome::Status(s) && success_status(s)) && retryable_outcome(
                outcome,
            ) && old(self).attempt < MAX_ATTEMPTS ==> {
                &&& r == RetryDecision::RetryAfterMs(backoff_ms(old(self).attempt as nat) as u64)
                &&& final(self).attempt == old(self).attempt + 1
            },
            !(outcome matches AttemptOutcome::Status(s) && success_status(s)) && !(retryable_outcome(
                outcome,
            ) && old(self).attempt < MAX_ATTEMPTS) ==> {
                &&& r == RetryDecision::Failed
                &&& final(self).attempt == old(self).attempt
            },
    {
        let retryable = match outcome {
            AttemptOutcome::Status(s) => {
                if 200 <= s && s <= 299 {
                    return RetryDecision::Succeeded;
                }
                should_retry_status(s)
            },
            AttemptOutcome::TransportError { is_timeout, is_connect } => should_retry_error(
                is_timeout,
                is_connect,
            ),
        };
        if retryable && self.attempt < MAX_ATTEMPTS {
            let wait: u64 = if self.attempt == 1 {
                BASE_BACKOFF_MS
            } else {
                2 * BASE_BACKOFF_MS
            };
            assert(backoff_ms(1) == 200);
            assert(backoff_ms(2) == 400);
            self.attempt = self.attempt + 1;
            RetryDecision::RetryAfterMs(wait)
        } else {
            RetryDecision::Failed
        }
    }
}

} // verus!
