//! The structured outputs of a transaction, decoded from what the machine
//! and the host left behind.

use crate::ledger::{decode_outputs, decoded_outputs};
use crate::notes::OutputNote;
use miden_objects::account::AccountHeader;
use miden_objects::vm::{AdviceMap, StackOutputs};
use miden_objects::TransactionOutputError;
use vstd::prelude::*;

verus! {

/// The result of executing a transaction.
#[derive(Debug)]
pub struct TransactionOutputs {
    /// The header of the account's final state.
    pub account: AccountHeader,
    /// The notes that the transaction produced, as execution produced them.
    pub output_notes: Vec<OutputNote>,
    /// The block number at which the transaction expires.
    pub expiration_block_num: u32,
}

/// Decodes the machine's stack outputs against the final advice map and the
/// notes that the host collected. The notes are taken over as they are, in
/// number and in order; nothing is executed again.
pub fn reconstruct_outputs(
    stack_outputs: &StackOutputs,
    advice_map: &AdviceMap,
    output_notes: Vec<OutputNote>,
) -> (outputs: Result<TransactionOutputs, TransactionOutputError>)
    ensures
        match decoded_outputs(*stack_outputs, *advice_map, output_notes@) {
            Ok((account, expiration)) => outputs == Ok::<
                TransactionOutputs,
                TransactionOutputError,
            >(
                TransactionOutputs {
                    account,
                    output_notes,
                    expiration_block_num: expiration,
                },
            ),
            Err(err) => outputs == Err::<TransactionOutputs, TransactionOutputError>(err),
        },
{
    match decode_outputs(stack_outputs, advice_map, &output_notes) {
        Ok((account, expiration_block_num)) => Ok(
            TransactionOutputs { account, output_notes, expiration_block_num },
        ),
        Err(err) => Err(err),
    }
}

} // verus!
