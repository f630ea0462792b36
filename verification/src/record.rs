//! The record of a proven transaction, as it is handed to the ledger's
//! builder.

use crate::account_update::AccountUpdateDetails;
use crate::ledger::{build_ledger_record, ledger_record};
use crate::notes::OutputNote;
use miden_objects::account::AccountId;
use miden_objects::transaction::{InputNoteCommitment, ProvenTransaction};
use miden_objects::vm::ExecutionProof;
use miden_objects::{Digest, ProvenTransactionError};
use vstd::prelude::*;

verus! {

/// Everything that goes into a proven transaction: what the ledger needs to
/// check that the transaction was executed correctly, and no more.
#[derive(Debug)]
pub struct TransactionRecord {
    /// The account that the transaction was executed against.
    pub account_id: AccountId,
    /// The hash of the account's state before the transaction; the empty
    /// word for a new account.
    pub initial_account_hash: Digest,
    /// The hash of the account's state after the transaction.
    pub final_account_hash: Digest,
    /// What the transaction discloses of the account's new state.
    pub account_update: AccountUpdateDetails,
    /// The commitments of the consumed notes.
    pub input_notes: Vec<InputNoteCommitment>,
    /// The produced notes, redacted.
    pub output_notes: Vec<OutputNote>,
    /// The hash of the reference block.
    pub block_ref: Digest,
    /// The block number at which the transaction expires.
    pub expiration_block_num: u32,
    /// The proof of correct execution.
    pub proof: ExecutionProof,
}

/// A proven transaction as a mathematical value.
pub struct TransactionRecordView {
    pub account_id: AccountId,
    pub initial_account_hash: Digest,
    pub final_account_hash: Digest,
    pub account_update: AccountUpdateDetails,
    pub input_notes: Seq<InputNoteCommitment>,
    pub output_notes: Seq<OutputNote>,
    pub block_ref: Digest,
    pub expiration_block_num: u32,
    pub proof: ExecutionProof,
}

impl View for TransactionRecord {
    type V = TransactionRecordView;

    open spec fn view(&self) -> TransactionRecordView {
        TransactionRecordView {
            account_id: self.account_id,
            initial_account_hash: self.initial_account_hash,
            final_account_hash: self.final_account_hash,
            account_update: self.account_update,
            input_notes: self.input_notes@,
            output_notes: self.output_notes@,
            block_ref: self.block_ref,
            expiration_block_num: self.expiration_block_num,
            proof: self.proof,
        }
    }
}

impl TransactionRecord {
    /// Hands the record to the ledger's builder, which checks it and seals
    /// it: the ledger's proven transaction, or the reason why the builder
    /// refuses the record.
    pub fn build(self) -> (built: Result<ProvenTransaction, ProvenTransactionError>)
        ensures
            built == ledger_record(self@),
    {
        build_ledger_record(self)
    }
}

} // verus!
