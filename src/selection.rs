use vstd::prelude::*;

use crate::error::{ConfigError, ProverError};

verus! {

/// Whether a head, an offset and a stride admit a selection.
pub open spec fn selection_defined(head: int, prover_id: int, block_mod: int) -> bool {
    &&& block_mod > 0
    &&& 0 <= prover_id < block_mod
    &&& head >= prover_id
}

/// The block that a worker with offset `prover_id` in stride `block_mod`
/// selects when the chain head is `head`: the stride base of the head plus
/// the offset, one stride lower where that would pass the head.
pub open spec fn selected_block(head: int, prover_id: int, block_mod: int) -> int {
    let base = head - head % block_mod;
    if base + prover_id <= head {
        base + prover_id
    } else {
        base + prover_id - block_mod
    }
}

/// The error, if any, that `select_block` reports for these arguments; the
/// checks are made in this order.
pub open spec fn selection_error(head: int, prover_id: int, block_mod: int) -> Option<ConfigError> {
    if block_mod <= 0 {
        Some(ConfigError::BlockModZero)
    } else if prover_id >= block_mod {
        Some(ConfigError::ProverIdOutOfRange)
    } else if head < prover_id {
        Some(ConfigError::CandidateBelowProverId)
    } else {
        None
    }
}

/// Whenever a selection is defined, the selected block lies at or below the
/// head, less than one stride below it, and its remainder modulo the stride is
/// the worker's offset; so workers with distinct offsets in one stride never
/// select the same block.
pub proof fn lemma_selection_in_stride(head: int, prover_id: int, block_mod: int)
    requires
        selection_defined(head, prover_id, block_mod),
    ensures
        0 <= selected_block(head, prover_id, block_mod) <= head,
        selected_block(head, prover_id, block_mod) % block_mod == prover_id,
        head - selected_block(head, prover_id, block_mod) < block_mod,
{
    let s = selected_block(head, prover_id, block_mod);
    let r = head % block_mod;
    let q = head / block_mod;
    assert(head == q * block_mod + r && 0 <= r < block_mod) by (nonlinear_arith)
        requires
            block_mod > 0,
            r == head % block_mod,
            q == head / block_mod,
    ;
    assert(q >= 0) by (nonlinear_arith)
        requires
            head >= 0,
            block_mod > 0,
            q == head / block_mod,
    ;
    if prover_id <= r {
        assert(s == q * block_mod + prover_id);
        assert((q * block_mod + prover_id) % block_mod == prover_id) by (nonlinear_arith)
            requires
                block_mod > 0,
                0 <= prover_id < block_mod,
        ;
    } else {
        assert(s == (q - 1) * block_mod + prover_id) by (nonlinear_arith)
            requires
                s == q * block_mod + prover_id - block_mod,
        ;
        assert(q >= 1) by (nonlinear_arith)
            requires
                head == q * block_mod + r,
                head >= prover_id,
                prover_id > r,
                q >= 0,
        ;
        assert(((q - 1) * block_mod + prover_id) % block_mod == prover_id) by (nonlinear_arith)
            requires
                block_mod > 0,
                0 <= prover_id < block_mod,
                q >= 1,
        ;
        assert((q - 1) * block_mod >= 0) by (nonlinear_arith)
            requires
                q >= 1,
                block_mod > 0,
        ;
    }
}

/// Selects the block that the worker with offset `prover_id` proves when the
/// chain head is `candidate_block`: the greatest block at or below the head
/// that lies at `prover_id` within its stride of `block_mod` blocks. A zero
/// stride, an offset outside the stride and a head below the offset are each
/// refused with their own configuration error.
pub fn select_block(candidate_block: u64, prover_id: u64, block_mod: u64) -> (r: Result<
    u64,
    ProverError,
>)
    ensures
        match selection_error(candidate_block as int, prover_id as int, block_mod as int) {
            Some(e) => r == Err::<u64, ProverError>(ProverError::Config(e)),
            None => r == Ok::<u64, ProverError>(
                selected_block(candidate_block as int, prover_id as int, block_mod as int) as u64,
            ),
        },
{
    if block_mod == 0 {
        return Err(ProverError::Config(ConfigError::BlockModZero));
    }
    if prover_id >= block_mod {
        return Err(ProverError::Config(ConfigError::ProverIdOutOfRange));
    }
    if candidate_block < prover_id {
        return Err(ProverError::Config(ConfigError::CandidateBelowProverId));
    }
    proof {
        lemma_selection_in_stride(candidate_block as int, prover_id as int, block_mod as int);
    }
    let rem = candidate_block % block_mod;
    assert(rem <= candidate_block) by (nonlinear_arith)
        requires
            block_mod > 0,
            rem == candidate_block % block_mod,
    ;
    let base = candidate_block - rem;
    if prover_id <= rem {
        Ok(base + prover_id)
    } else {
        Ok(base - (block_mod - prover_id))
    }
}

/// The selection state of a continuously polling worker: its place in the
/// stride and the last block it emitted.
#[derive(Clone, Copy, Debug)]
pub struct BlockSelector {
    pub prover_id: u64,
    pub block_mod: u64,
    pub last_selected: Option<u64>,
}

/// What the selector emits for a head, given the block it emitted last: the
/// selected block when nothing was emitted yet or the selection is greater
/// than the last one, and nothing otherwise.
pub open spec fn emission(last: Option<u64>, selected: int) -> Option<int> {
    match last {
        Some(prev) => if selected > prev {
            Some(selected)
        } else {
            None
        },
        None => Some(selected),
    }
}

impl BlockSelector {
    /// A selector that has emitted nothing yet.
    pub fn new(prover_id: u64, block_mod: u64) -> (r: BlockSelector)
        ensures
            r.prover_id == prover_id,
            r.block_mod == block_mod,
            r.last_selected is None,
    {
        BlockSelector { prover_id, block_mod, last_selected: None }
    }

    /// Takes a newly observed chain head. Returns the block to fetch and
    /// prove, if the head selects a block greater than every block emitted so
    /// far, and records it; returns `None` when the worker should wait for the
    /// next poll. Errors are those of `select_block`, and leave the state as it
    /// was.
    pub fn on_head(&mut self, head: u64) -> (r: Result<Option<u64>, ProverError>)
        ensures
            final(self).prover_id == old(self).prover_id,
            final(self).block_mod == old(self).block_mod,
            match selection_error(head as int, old(self).prover_id as int, old(self).block_mod as int) {
                Some(e) => {
                    &&& r == Err::<Option<u64>, ProverError>(ProverError::Config(e))
                    &&& final(self).last_selected == old(self).last_selected
                },
                None => {
                    let s = selected_block(
                        head as int,
                        old(self).prover_id as int,
                        old(self).block_mod as int,
                    );
                    match emission(old(self).last_selected, s) {
                        Some(e) => {
                            &&& r == Ok::<Option<u64>, ProverError>(Some(e as u64))
                            &&& final(self).last_selected == Some(e as u64)
                        },
                        None => {
                            &&& r == Ok::<Option<u64>, ProverError>(None)
                            &&& final(self).last_selected == old(self).last_selected
                        },
                    }
                },
            },
    {
        let selected = match select_block(head, self.prover_id, self.block_mod) {
            Ok(s) => s,
            Err(e) => return Err(e),
        };
        proof {
            lemma_selection_in_stride(head as int, self.prover_id as int, self.block_mod as int);
        }
        match self.last_selected {
            Some(prev) => {
                if selected <= prev {
                    return Ok(None);
                }
            },
            None => {},
        }
        self.last_selected = Some(selected);
        Ok(Some(selected))
    }
}

/// The blocks that a selector emits, in order, when it starts with `last`
/// and observes `heads` one after another.
pub open spec fn emitted_blocks(
    prover_id: u64,
    block_mod: u64,
    last: Option<u64>,
    heads: Seq<u64>,
) -> Seq<int>
    decreases heads.len(),
{
    if heads.len() == 0 {
        seq![]
    } else {
        let s = selected_block(heads[0] as int, prover_id as int, block_mod as int);
        match emission(last, s) {
            Some(e) => seq![e] + emitted_blocks(prover_id, block_mod, Some(e as u64), heads.drop_first()),
            None => emitted_blocks(prover_id, block_mod, last, heads.drop_first()),
        }
    }
}

/// For any sequence of observed heads at which a selection is defined, the
/// blocks that the selector emits are strictly increasing, and each is greater
/// than the block it had emitted before.
pub proof fn lemma_emitted_blocks_strictly_increasing(
    prover_id: u64,
    block_mod: u64,
    last: Option<u64>,
    heads: Seq<u64>,
)
    requires
        forall|i: int|
            0 <= i < heads.len() ==> selection_defined(
                #[trigger] heads[i] as int,
                prover_id as int,
                block_mod as int,
            ),
    ensures
        forall|i: int, j: int|
            0 <= i < j < emitted_blocks(prover_id, block_mod, last, heads).len() ==> emitted_blocks(
                prover_id,
                block_mod,
                last,
                heads,
            )[i] < emitted_blocks(prover_id, block_mod, last, heads)[j],
        forall|i: int|
            0 <= i < emitted_blocks(prover_id, block_mod, last, heads).len() ==> (
            last matches Some(p) ==> p < #[trigger] emitted_blocks(
                prover_id,
                block_mod,
                last,
                heads,
            )[i]),
        forall|i: int|
            0 <= i < emitted_blocks(prover_id, block_mod, last, heads).len() ==> 0
                <= #[trigger] emitted_blocks(prover_id, block_mod, last, heads)[i] <= u64::MAX,
    decreases heads.len(),
{
    if heads.len() > 0 {
        let rest = heads.drop_first();
        assert forall|i: int|
            0 <= i < rest.len() implies selection_defined(
                #[trigger] rest[i] as int,
                prover_id as int,
                block_mod as int,
            ) by {
            assert(rest[i] == heads[i + 1]);
        }
        assert(selection_defined(heads[0] as int, prover_id as int, block_mod as int));
        lemma_selection_in_stride(heads[0] as int, prover_id as int, block_mod as int);
        let s = selected_block(heads[0] as int, prover_id as int, block_mod as int);
        match emission(last, s) {
            Some(e) => {
                lemma_emitted_blocks_strictly_increasing(prover_id, block_mod, Some(e as u64), rest);
                let tail = emitted_blocks(prover_id, block_mod, Some(e as u64), rest);
                let all = emitted_blocks(prover_id, block_mod, last, heads);
                assert(all == seq![e] + tail);
                assert(all[0] == e);
                assert forall|i: int, j: int| 0 <= i < j < all.len() implies all[i] < all[j] by {
                    if i == 0 {
                        assert(all[j] == tail[j - 1]);
                    } else {
                        assert(all[i] == tail[i - 1]);
                        assert(all[j] == tail[j - 1]);
                    }
                }
                assert forall|i: int| 0 <= i < all.len() implies (last matches Some(p) ==> p
                    < #[trigger] all[i]) by {
                    if i > 0 {
                        assert(all[i] == tail[i - 1]);
                    }
                }
                assert forall|i: int| 0 <= i < all.len() implies 0 <= #[trigger] all[i]
                    <= u64::MAX by {
                    if i > 0 {
                        assert(all[i] == tail[i - 1]);
                    }
                }
            },
            None => {
                lemma_emitted_blocks_strictly_increasing(prover_id, block_mod, last, rest);
                assert(emitted_blocks(prover_id, block_mod, last, heads) == emitted_blocks(
                    prover_id,
                    block_mod,
                    last,
                    rest,
                ));
            },
        }
    }
}

/// A higher head never selects a lower block.
pub proof fn lemma_selection_monotone(h1: int, h2: int, prover_id: int, block_mod: int)
    requires
        selection_defined(h1, prover_id, block_mod),
        h1 <= h2,
    ensures
        selected_block(h1, prover_id, block_mod) <= selected_block(h2, prover_id, block_mod),
{
    lemma_selection_in_stride(h1, prover_id, block_mod);
    lemma_selection_in_stride(h2, prover_id, block_mod);
    let s1 = selected_block(h1, prover_id, block_mod);
    let s2 = selected_block(h2, prover_id, block_mod);
    assert(s1 <= s2) by (nonlinear_arith)
        requires
            block_mod > 0,
            s1 % block_mod == prover_id,
            s2 % block_mod == prover_id,
            0 <= s1 <= h1,
            0 <= s2,
            h1 <= h2,
            h2 - s2 < block_mod,
    {
        let q1 = s1 / block_mod;
        let q2 = s2 / block_mod;
        assert(s1 == q1 * block_mod + prover_id);
        assert(s2 == q2 * block_mod + prover_id);
        if q1 > q2 {
            assert(q1 * block_mod >= (q2 + 1) * block_mod);
        }
    }
}

/// For a non-decreasing sequence of heads at which a selection is defined,
/// no selection is skipped: the block selected at every head is emitted, or
/// is the block that had been emitted before the sequence began.
pub proof fn lemma_emitted_blocks_cover_selections(
    prover_id: u64,
    block_mod: u64,
    last: Option<u64>,
    heads: Seq<u64>,
)
    requires
        forall|i: int|
            0 <= i < heads.len() ==> selection_defined(
                #[trigger] heads[i] as int,
                prover_id as int,
                block_mod as int,
            ),
        forall|i: int, j: int| 0 <= i < j < heads.len() ==> heads[i] <= heads[j],
        heads.len() > 0 && last is Some ==> last->Some_0 <= selected_block(
            heads[0] as int,
            prover_id as int,
            block_mod as int,
        ),
    ensures
        forall|i: int|
            0 <= i < heads.len() ==> ({
                let s = selected_block(#[trigger] heads[i] as int, prover_id as int, block_mod as int);
                emitted_blocks(prover_id, block_mod, last, heads).contains(s) || (last is Some
                    && last->Some_0 == s)
            }),
    decreases heads.len(),
{
    if heads.len() > 0 {
        let rest = heads.drop_first();
        let s0 = selected_block(heads[0] as int, prover_id as int, block_mod as int);
        assert(selection_defined(heads[0] as int, prover_id as int, block_mod as int));
        lemma_selection_in_stride(heads[0] as int, prover_id as int, block_mod as int);
        assert forall|i: int|
            0 <= i < rest.len() implies selection_defined(
                #[trigger] rest[i] as int,
                prover_id as int,
                block_mod as int,
            ) by {
            assert(rest[i] == heads[i + 1]);
        }
        assert forall|i: int, j: int| 0 <= i < j < rest.len() implies rest[i] <= rest[j] by {
            assert(rest[i] == heads[i + 1]);
            assert(rest[j] == heads[j + 1]);
        }
        if rest.len() > 0 {
            assert(rest[0] == heads[1]);
            assert(selection_defined(heads[1] as int, prover_id as int, block_mod as int));
            lemma_selection_monotone(
                heads[0] as int,
                heads[1] as int,
                prover_id as int,
                block_mod as int,
            );
        }
        let all = emitted_blocks(prover_id, block_mod, last, heads);
        match emission(last, s0) {
            Some(e) => {
                lemma_emitted_blocks_cover_selections(prover_id, block_mod, Some(e as u64), rest);
                let tail = emitted_blocks(prover_id, block_mod, Some(e as u64), rest);
                assert(all == seq![e] + tail);
                assert(all[0] == e);
                assert forall|i: int|
                    0 <= i < heads.len() implies ({
                    let s = selected_block(#[trigger] heads[i] as int, prover_id as int, block_mod as int);
                    all.contains(s) || (last is Some && last->Some_0 == s)
                }) by {
                    let s = selected_block(heads[i] as int, prover_id as int, block_mod as int);
                    if i == 0 {
                        assert(all[0] == s);
                    } else {
                        assert(heads[i] == rest[i - 1]);
                        if tail.contains(s) {
                            let k = choose|k: int| 0 <= k < tail.len() && tail[k] == s;
                            assert(all[k + 1] == s);
                        } else {
                            assert(selection_defined(heads[i] as int, prover_id as int, block_mod as int));
                            lemma_selection_in_stride(heads[i] as int, prover_id as int, block_mod as int);
                            assert(all[0] == s);
                        }
                    }
                }
            },
            None => {
                lemma_emitted_blocks_cover_selections(prover_id, block_mod, last, rest);
                assert(all == emitted_blocks(prover_id, block_mod, last, rest));
                assert(last is Some && last->Some_0 == s0);
                assert forall|i: int|
                    0 <= i < heads.len() implies ({
                    let s = selected_block(#[trigger] heads[i] as int, prover_id as int, block_mod as int);
                    all.contains(s) || (last is Some && last->Some_0 == s)
                }) by {
                    if i > 0 {
                        assert(heads[i] == rest[i - 1]);
                    }
                }
            },
        }
    }
}

} // verus!
