use vstd::prelude::*;

use crate::error::{ConfigError, ProverError};

verus! {

/// Where the single-block source takes its block from.
#[derive(Clone, Copy, Debug, PartialEq, Eq, Structural)]
pub enum SingleBlockAction {
    /// Serve the block from the cache, with no RPC traffic.
    LoadFromCache(u64),
    /// Fetch this block over RPC.
    Fetch(u64),
    /// Ask the chain for its head, then fetch that block.
    FetchHead,
}

/// Decides where a single-block run takes its block from. A requested block
/// whose cache entry is complete is served from the cache; otherwise an RPC
/// endpoint is needed, and the requested block, or the chain head when none
/// was requested, is fetched.
pub fn single_block_action(block_number: Option<u64>, cached: bool, has_rpc: bool) -> (r: Result<
    SingleBlockAction,
    ProverError,
>)
    ensures
        block_number is Some && cached ==> r == Ok::<SingleBlockAction, ProverError>(
            SingleBlockAction::LoadFromCache(block_number->Some_0),
        ),
        !(block_number is Some && cached) && !has_rpc ==> r == Err::<SingleBlockAction, ProverError>(
            ProverError::Config(ConfigError::BlockNotCachedWithoutRpc),
        ),
        !(block_number is Some && cached) && has_rpc ==> r == Ok::<SingleBlockAction, ProverError>(
            match block_number {
                Some(n) => SingleBlockAction::Fetch(n),
                None => SingleBlockAction::FetchHead,
            },
        ),
{
    match block_number {
        Some(n) => {
            if cached {
                return Ok(SingleBlockAction::LoadFromCache(n));
            }
        },
        None => {},
    }
    if !has_rpc {
        return Err(ProverError::Config(ConfigError::BlockNotCachedWithoutRpc));
    }
    match block_number {
        Some(n) => Ok(SingleBlockAction::Fetch(n)),
        None => Ok(SingleBlockAction::FetchHead),
    }
}

/// The block input read from a complete cache entry, or a cache error where
/// the entry's files vanished after it was found complete.
pub fn cached_input<T>(loaded: Option<T>) -> (r: Result<T, ProverError>)
    ensures
        loaded matches Some(t) ==> r == Ok::<T, ProverError>(t),
        loaded is None ==> r == Err::<T, ProverError>(ProverError::CacheIo),
{
    match loaded {
        Some(t) => Ok(t),
        None => Err(ProverError::CacheIo),
    }
}

/// The block of an RPC response, or an RPC error where the chain has no such
/// block.
pub fn fetched_block<T>(block: Option<T>) -> (r: Result<T, ProverError>)
    ensures
        block matches Some(t) ==> r == Ok::<T, ProverError>(t),
        block is None ==> r == Err::<T, ProverError>(ProverError::Rpc),
{
    match block {
        Some(t) => Ok(t),
        None => Err(ProverError::Rpc),
    }
}

} // verus!
