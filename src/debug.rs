use vstd::prelude::*;

verus! {

/// How the state-transition function handled one transaction.
#[derive(Clone, Copy, Debug, PartialEq, Eq, Structural)]
pub enum TxExecution {
    /// The transaction was rejected as invalid.
    Invalid,
    Executed { success: bool, gas_used: u64 },
}

/// What the canonical receipt of a transaction says.
#[derive(Clone, Copy, Debug, PartialEq, Eq, Structural)]
pub struct ReceiptFacts {
    pub success: bool,
    pub gas_used: u64,
}

/// A discrepancy found while replaying a block, by the index of the
/// transaction in the block.
#[derive(Clone, Copy, Debug, PartialEq, Eq, Structural)]
pub enum TxProblem {
    /// The executor reported more transactions than the block holds.
    UnexpectedTransaction,
    InvalidTransaction { tx_index: u64 },
    ReceiptUnavailable { tx_index: u64 },
    StatusMismatch { tx_index: u64, stf_success: bool, receipt_success: bool },
    GasMismatch { tx_index: u64, stf_gas_used: u64, receipt_gas_used: u64 },
}

/// The problems that one executed transaction shows against its receipt:
/// a status mismatch, then a gas mismatch, each where it occurs.
pub open spec fn tx_problems(tx_index: u64, execution: TxExecution, receipt: Option<ReceiptFacts>) -> Seq<
    TxProblem,
> {
    match execution {
        TxExecution::Invalid => seq![TxProblem::InvalidTransaction { tx_index }],
        TxExecution::Executed { success, gas_used } => match receipt {
            None => seq![TxProblem::ReceiptUnavailable { tx_index }],
            Some(rc) => {
                let status: Seq<TxProblem> = if success != rc.success {
                    seq![
                        TxProblem::StatusMismatch {
                            tx_index,
                            stf_success: success,
                            receipt_success: rc.success,
                        },
                    ]
                } else {
                    seq![]
                };
                let gas: Seq<TxProblem> = if gas_used != rc.gas_used {
                    seq![
                        TxProblem::GasMismatch {
                            tx_index,
                            stf_gas_used: gas_used,
                            receipt_gas_used: rc.gas_used,
                        },
                    ]
                } else {
                    seq![]
                };
                status + gas
            },
        },
    }
}

/// Follows the executor through a block's transactions during a debug
/// replay and collects what disagrees with the chain's receipts.
#[derive(Clone, Debug)]
pub struct TxDebugger {
    pub block_number: u64,
    /// The number of transactions in the block.
    pub tx_count: u64,
    /// The index of the next transaction the executor will report.
    pub next_tx: u64,
    pub problems: Vec<TxProblem>,
}

impl TxDebugger {
    pub fn new(block_number: u64, tx_count: u64) -> (r: TxDebugger)
        ensures
            r.block_number == block_number,
            r.tx_count == tx_count,
            r.next_tx == 0,
            r.problems@ == Seq::<TxProblem>::empty(),
    {
        TxDebugger { block_number, tx_count, next_tx: 0, problems: Vec::new() }
    }

    /// Takes the next transaction of the block, in order; an executor that
    /// reports more transactions than the block holds is a problem.
    pub fn next_transaction(&mut self) -> (r: Option<u64>)
        ensures
            final(self).block_number == old(self).block_number,
            final(self).tx_count == old(self).tx_count,
            old(self).next_tx < old(self).tx_count ==> {
                &&& r == Some(old(self).next_tx)
                &&& final(self).next_tx == old(self).next_tx + 1
                &&& final(self).problems@ == old(self).problems@
            },
            old(self).next_tx >= old(self).tx_count ==> {
                &&& r is None
                &&& final(self).next_tx == old(self).next_tx
                &&& final(self).problems@ == old(self).problems@.push(
                    TxProblem::UnexpectedTransaction,
                )
            },
    {
        if self.next_tx < self.tx_count {
            let i = self.next_tx;
            self.next_tx = i + 1;
            Some(i)
        } else {
            self.problems.push(TxProblem::UnexpectedTransaction);
            None
        }
    }

    /// Records the problems of transaction `tx_index` given how it executed
    /// and its receipt, if one could be had from the cache or the chain.
    pub fn check(&mut self, tx_index: u64, execution: TxExecution, receipt: Option<ReceiptFacts>)
        ensures
            final(self).block_number == old(self).block_number,
            final(self).tx_count == old(self).tx_count,
            final(self).next_tx == old(self).next_tx,
            final(self).problems@ == old(self).problems@ + tx_problems(tx_index, execution, receipt),
    {
        let ghost before = self.problems@;
        match execution {
            TxExecution::Invalid => {
                self.problems.push(TxProblem::InvalidTransaction { tx_index });
            },
            TxExecution::Executed { success, gas_used } => match receipt {
                None => {
                    self.problems.push(TxProblem::ReceiptUnavailable { tx_index });
                },
                Some(rc) => {
                    if success != rc.success {
                        self.problems.push(
                            TxProblem::StatusMismatch {
                                tx_index,
                                stf_success: success,
                                receipt_success: rc.success,
                            },
                        );
                    }
                    if gas_used != rc.gas_used {
                        self.problems.push(
                            TxProblem::GasMismatch {
                                tx_index,
                                stf_gas_used: gas_used,
                                receipt_gas_used: rc.gas_used,
                            },
                        );
                    }
                },
            },
        }
        assert(self.problems@ =~= before + tx_problems(tx_index, execution, receipt));
    }

    /// The problems found so far, in the order found.
    pub fn get_problems(&self) -> (r: &Vec<TxProblem>)
        ensures
            r@ == self.problems@,
    {
        &self.problems
    }
}

} // verus!
