//! The ways in which proving a transaction fails. Each error names the stage
//! that failed and carries that stage's own reason; it ends the call.

use miden_objects::{AccountError, ProvenTransactionError, TransactionOutputError};
use miden_processor::ExecutionError;
use vstd::prelude::*;

verus! {

/// Why the execution host could not be set up.
#[derive(Debug, PartialEq, Eq)]
pub struct TransactionHostError {
    pub reason: String,
}

/// The stage at which proving failed.
#[derive(Debug)]
pub enum TransactionProverError {
    /// The execution host could not be set up from the account, the advice
    /// inputs and the code cache.
    TransactionHostCreationFailed(TransactionHostError),
    /// The proving engine rejected the inputs, trapped during execution, or
    /// produced no proof.
    TransactionProgramExecutionFailed(ExecutionError),
    /// The machine's raw outputs do not decode into transaction outputs.
    TransactionOutputConstructionFailed(TransactionOutputError),
    /// The accumulated changes do not apply to the new account.
    AccountDeltaApplyFailed(AccountError),
    /// The ledger's builder refused the record.
    ProvenTransactionBuildFailed(ProvenTransactionError),
}

} // verus!
