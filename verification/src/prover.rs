//! The local transaction prover.
//!
//! Proving runs once through a fixed line of stages: the code that the
//! witness refers to is registered in the code cache, the kernel's inputs
//! are prepared, the engine executes and proves, the raw outputs are decoded,
//! the produced notes are redacted, the account update is chosen, and the
//! record is built. The first stage that fails ends the call with its error;
//! a record exists only when every stage has succeeded.

use crate::account_update::{
    account_after, select_update_details, update_details, AccountUpdateDetails,
};
use crate::code_cache::{with_forest, with_forests, with_witness_code, CodeCache, Commitment};
use crate::engine::{ExecutionEngine, ExecutionOutcome, ExecutionOutput, ExecutionRequest};
use crate::errors::TransactionProverError;
use crate::ledger::{
    account_code_commitments, account_header, account_header_hash, account_id, account_init_hash,
    account_is_new, account_is_public, account_of, block_reference, copy_proving_options,
    decoded_outputs, default_proving_options, forest_of_library, header_hash, header_of, id_of,
    init_hash_of, input_note_commitments, kernel_forest, kernel_inputs, kernel_program,
    ledger_record, library_forest, prepare_inputs, rollup_library_forest, standard_library_forest,
    witness_account, witness_block_ref, witness_code_commitments, witness_input_notes,
};
use crate::notes::{redact, redacted_notes, OutputNote};
use crate::outputs::{reconstruct_outputs, TransactionOutputs};
use crate::record::{TransactionRecord, TransactionRecordView};
use miden_objects::account::{AccountDelta, AccountHeader};
use miden_objects::assembly::mast::MastForest;
use miden_objects::assembly::Library;
use miden_objects::transaction::{ProvenTransaction, TransactionWitness};
use miden_objects::vm::ExecutionProof;
use miden_prover::ProvingOptions;
use std::sync::Arc;
use vstd::prelude::*;

verus! {

// ---------------------------------------------------------------------------
// The stages after execution
// ---------------------------------------------------------------------------

/// The record that is handed to the ledger's builder for a witness, the
/// decoded outputs of its execution, the chosen account update and the proof.
pub open spec fn drafted(
    witness: TransactionWitness,
    final_account: AccountHeader,
    expiration_block_num: u32,
    output_notes: Seq<OutputNote>,
    account_update: AccountUpdateDetails,
    proof: ExecutionProof,
) -> TransactionRecordView {
    TransactionRecordView {
        account_id: account_id(witness_account(witness)),
        initial_account_hash: account_init_hash(witness_account(witness)),
        final_account_hash: account_header_hash(final_account),
        account_update,
        input_notes: witness_input_notes(witness),
        output_notes: redacted_notes(output_notes),
        block_ref: witness_block_ref(witness),
        expiration_block_num,
        proof,
    }
}

/// What assembling makes of decoded outputs: the account update is chosen
/// first, then the record is built.
pub open spec fn assembled(
    witness: TransactionWitness,
    final_account: AccountHeader,
    expiration_block_num: u32,
    output_notes: Seq<OutputNote>,
    account_delta: AccountDelta,
    proof: ExecutionProof,
) -> Result<ProvenTransaction, TransactionProverError> {
    match update_details(witness_account(witness), account_delta) {
        Err(err) => Err(TransactionProverError::AccountDeltaApplyFailed(err)),
        Ok(account_update) => match ledger_record(
            drafted(
                witness,
                final_account,
                expiration_block_num,
                output_notes,
                account_update,
                proof,
            ),
        ) {
            Ok(tx) => Ok(tx),
            Err(err) => Err(TransactionProverError::ProvenTransactionBuildFailed(err)),
        },
    }
}

/// What proving makes of the engine's outcome.
pub open spec fn concluded(witness: TransactionWitness, outcome: ExecutionOutcome) -> Result<
    ProvenTransaction,
    TransactionProverError,
> {
    match outcome {
        ExecutionOutcome::HostCreationFailed(err) => Err(
            TransactionProverError::TransactionHostCreationFailed(err),
        ),
        ExecutionOutcome::ProgramExecutionFailed(err) => Err(
            TransactionProverError::TransactionProgramExecutionFailed(err),
        ),
        ExecutionOutcome::Completed(output) => match decoded_outputs(
            output.stack_outputs,
            output.advice_map,
            output.output_notes@,
        ) {
            Err(err) => Err(TransactionProverError::TransactionOutputConstructionFailed(err)),
            Ok((final_account, expiration_block_num)) => assembled(
                witness,
                final_account,
                expiration_block_num,
                output.output_notes@,
                output.account_delta,
                output.proof,
            ),
        },
    }
}

/// Redacts the produced notes, chooses the account update and builds the
/// record.
pub fn assemble(
    witness: &TransactionWitness,
    outputs: TransactionOutputs,
    account_delta: AccountDelta,
    proof: ExecutionProof,
) -> (result: Result<ProvenTransaction, TransactionProverError>)
    ensures
        result == assembled(
            *witness,
            outputs.account,
            outputs.expiration_block_num,
            outputs.output_notes@,
            account_delta,
            proof,
        ),
{
    let account = account_of(witness);
    let output_notes = redact(&outputs.output_notes);
    let account_update = match select_update_details(account, account_delta) {
        Ok(details) => details,
        Err(err) => {
            return Err(TransactionProverError::AccountDeltaApplyFailed(err));
        },
    };
    let record = TransactionRecord {
        account_id: id_of(account),
        initial_account_hash: init_hash_of(account),
        final_account_hash: header_hash(&outputs.account),
        account_update,
        input_notes: input_note_commitments(witness),
        output_notes,
        block_ref: block_reference(witness),
        expiration_block_num: outputs.expiration_block_num,
        proof,
    };
    match record.build() {
        Ok(tx) => Ok(tx),
        Err(err) => Err(TransactionProverError::ProvenTransactionBuildFailed(err)),
    }
}

/// Turns the engine's outcome into the result of proving: a failure of the
/// engine is classified, a completed run is decoded and assembled.
pub fn conclude(witness: &TransactionWitness, outcome: ExecutionOutcome) -> (result: Result<
    ProvenTransaction,
    TransactionProverError,
>)
    ensures
        result == concluded(*witness, outcome),
{
    match outcome {
        ExecutionOutcome::HostCreationFailed(err) => Err(
            TransactionProverError::TransactionHostCreationFailed(err),
        ),
        ExecutionOutcome::ProgramExecutionFailed(err) => Err(
            TransactionProverError::TransactionProgramExecutionFailed(err),
        ),
        ExecutionOutcome::Completed(output) => {
            let ExecutionOutput { stack_outputs, proof, advice_map, account_delta, output_notes } =
                output;
            match reconstruct_outputs(&stack_outputs, &advice_map, output_notes) {
                Err(err) => Err(TransactionProverError::TransactionOutputConstructionFailed(err)),
                Ok(outputs) => assemble(witness, outputs, account_delta, proof),
            }
        },
    }
}

// ---------------------------------------------------------------------------
// The stage before execution
// ---------------------------------------------------------------------------

/// The commitments of a list without repetition: each in the place where it
/// first appears.
pub open spec fn first_appearances(all: Seq<Commitment>) -> Seq<Commitment>
    decreases all.len(),
{
    if all.len() == 0 {
        Seq::<Commitment>::empty()
    } else {
        let before = first_appearances(all.drop_last());
        if before.contains(all.last()) {
            before
        } else {
            before.push(all.last())
        }
    }
}

/// The first appearances of a list hold every commitment of the list, and
/// each once.
pub proof fn first_appearances_list_each_once(all: Seq<Commitment>)
    ensures
        first_appearances(all).no_duplicates(),
        forall|c: Commitment| first_appearances(all).contains(c) <==> all.contains(c),
    decreases all.len(),
{
    if all.len() > 0 {
        let rest = all.drop_last();
        let before = first_appearances(rest);
        let list = first_appearances(all);
        first_appearances_list_each_once(rest);
        assert forall|c: Commitment| list.contains(c) <==> all.contains(c) by {
            if all.contains(c) {
                let k = choose|k: int| 0 <= k < all.len() && all[k] == c;
                if k < rest.len() {
                    assert(rest[k] == c);
                    assert(rest.contains(c));
                    assert(before.contains(c));
                    let m = choose|m: int| 0 <= m < before.len() && before[m] == c;
                    assert(list[m] == c);
                } else if !before.contains(c) {
                    assert(list[before.len() as int] == c);
                }
            }
            if list.contains(c) {
                let m = choose|m: int| 0 <= m < list.len() && list[m] == c;
                if m < before.len() {
                    assert(before[m] == c);
                    assert(before.contains(c));
                    assert(rest.contains(c));
                    let k = choose|k: int| 0 <= k < rest.len() && rest[k] == c;
                    assert(all[k] == c);
                } else {
                    assert(all[all.len() - 1] == c);
                }
            }
        }
        if !before.contains(all.last()) {
            assert forall|x: int, y: int|
                0 <= x < list.len() && 0 <= y < list.len() && x != y implies list[x]
                != list[y] by {
                if x < before.len() && y < before.len() {
                    assert(before[x] != before[y]);
                } else if x < before.len() {
                    assert(before.contains(before[x]));
                } else {
                    assert(before.contains(before[y]));
                }
            }
        }
    }
}

/// Lists each commitment of `all` once, in the order of first appearance.
pub fn distinct_commitments(all: &Vec<Commitment>) -> (list: Vec<Commitment>)
    ensures
        list@ == first_appearances(all@),
{
    let mut list: Vec<Commitment> = Vec::new();
    let mut i: usize = 0;
    while i < all.len()
        invariant
            i <= all.len(),
            list@ == first_appearances(all@.take(i as int)),
        decreases all.len() - i,
    {
        let candidate = all[i];
        let mut known = false;
        let mut j: usize = 0;
        while j < list.len()
            invariant
                j <= list.len(),
                known <==> list@.take(j as int).contains(candidate),
            decreases list.len() - j,
        {
            if list[j] == candidate {
                known = true;
            }
            proof {
                let seen = list@.take(j as int);
                let next = list@.take(j + 1);
                if seen.contains(candidate) {
                    let k = choose|k: int| 0 <= k < seen.len() && seen[k] == candidate;
                    assert(next[k] == candidate);
                }
                if next.contains(candidate) && list@[j as int] != candidate {
                    let k = choose|k: int| 0 <= k < next.len() && next[k] == candidate;
                    assert(seen[k] == candidate);
                }
                assert(next[j as int] == list@[j as int]);
            }
            j += 1;
        }
        proof {
            assert(list@.take(list.len() as int) =~= list@);
            assert(all@.take(i + 1).drop_last() =~= all@.take(i as int));
            assert(all@.take(i + 1).last() == candidate);
        }
        if !known {
            list.push(candidate);
        }
        i += 1;
    }
    proof {
        assert(all@.take(all.len() as int) =~= all@);
    }
    list
}

/// The request is the one that proving hands to the engine for a witness,
/// under the given proving options.
pub open spec fn is_request_for(
    request: ExecutionRequest,
    witness: TransactionWitness,
    options: ProvingOptions,
) -> bool {
    &&& request.stack_inputs == kernel_inputs(witness).0
    &&& request.advice_inputs == kernel_inputs(witness).1
    &&& request.account == account_header(witness_account(witness))
    &&& request.account_codes@ == first_appearances(witness_code_commitments(witness))
    &&& request.options == options
}

// ---------------------------------------------------------------------------
// The prover
// ---------------------------------------------------------------------------

/// Proves transactions: consumes a witness and returns the proven
/// transaction, or the error of the stage that failed.
pub trait TransactionProver {
    /// Proves the witnessed transaction.
    fn prove(&mut self, tx_witness: TransactionWitness) -> Result<
        ProvenTransaction,
        TransactionProverError,
    >;
}

/// A prover that runs the whole pipeline in place, on an engine of its own.
/// It keeps a code cache across calls; the cache only grows.
pub struct LocalTransactionProver<E> {
    mast_store: CodeCache,
    proof_options: ProvingOptions,
    engine: E,
}

impl<E: ExecutionEngine> LocalTransactionProver<E> {
    /// What the prover's code cache resolves.
    pub closed spec fn code(&self) -> Map<Commitment, Arc<MastForest>> {
        self.mast_store@
    }

    /// The prover's proving options.
    pub closed spec fn options(&self) -> ProvingOptions {
        self.proof_options
    }

    /// The prover's engine.
    pub closed spec fn engine(&self) -> E {
        self.engine
    }

    /// A prover with the given proving options and engine. Its cache holds
    /// the code that every transaction may call: the transaction kernel, the
    /// standard library and the rollup library.
    pub fn new(proof_options: ProvingOptions, engine: E) -> (prover: Self)
        ensures
            prover.options() == proof_options,
            prover.engine() == engine,
            exists|libraries: Seq<Arc<MastForest>>| #[trigger]
                libraries.len() == 3 && prover.code() == with_forests(
                    Map::<Commitment, Arc<MastForest>>::empty(),
                    libraries,
                ),
    {
        let mut libraries: Vec<Arc<MastForest>> = Vec::new();
        libraries.push(kernel_forest());
        libraries.push(standard_library_forest());
        libraries.push(rollup_library_forest());
        let mut mast_store = CodeCache::new();
        mast_store.insert_all(&libraries);
        assert(libraries@.len() == 3);
        LocalTransactionProver { mast_store, proof_options, engine }
    }

    /// Registers the code of a library, for accounts whose code calls into
    /// it. Loading a library again changes nothing.
    pub fn load_library(&mut self, library: &Library)
        ensures
            final(self).code() == with_forest(old(self).code(), library_forest(*library)),
            final(self).options() == old(self).options(),
            final(self).engine() == old(self).engine(),
    {
        self.mast_store.insert(forest_of_library(library));
    }

    /// The forest that the prover's cache resolves a commitment to, if any.
    pub fn lookup(&self, root: &Commitment) -> (forest: Option<Arc<MastForest>>)
        ensures
            forest == if self.code().dom().contains(*root) {
                Some(self.code()[*root])
            } else {
                None
            },
    {
        self.mast_store.get(root)
    }

    /// The first stages of proving: registers the code that the witness
    /// refers to and prepares what the engine is to execute.
    pub fn prepare(&mut self, witness: &TransactionWitness) -> (request: ExecutionRequest)
        ensures
            final(self).code() == with_witness_code(old(self).code(), *witness),
            final(self).options() == old(self).options(),
            final(self).engine() == old(self).engine(),
            is_request_for(request, *witness, old(self).options()),
    {
        self.mast_store.load_account_codes(witness);
        let (stack_inputs, advice_inputs) = prepare_inputs(witness);
        self.mast_store.load_transaction_code(witness);
        let commitments = account_code_commitments(witness);
        ExecutionRequest {
            program: kernel_program(),
            stack_inputs,
            advice_inputs,
            account: header_of(account_of(witness)),
            account_codes: distinct_commitments(&commitments),
            options: copy_proving_options(&self.proof_options),
        }
    }
}

impl<E: ExecutionEngine> TransactionProver for LocalTransactionProver<E> {
    /// Proves the witnessed transaction. The code that the witness refers
    /// to is registered whatever the engine does; the result is what
    /// `concluded` makes of the engine's outcome.
    fn prove(&mut self, tx_witness: TransactionWitness) -> (result: Result<
        ProvenTransaction,
        TransactionProverError,
    >)
        ensures
            final(self).code() == with_witness_code(old(self).code(), tx_witness),
            final(self).options() == old(self).options(),
            exists|outcome: ExecutionOutcome| result == #[trigger] concluded(tx_witness, outcome),
    {
        let request = self.prepare(&tx_witness);
        let outcome = self.engine.execute(&self.mast_store, request);
        conclude(&tx_witness, outcome)
    }
}

impl<E: ExecutionEngine + Default> Default for LocalTransactionProver<E> {
    /// A prover with the default proving options and a default engine.
    fn default() -> (prover: Self)
        ensures
            exists|libraries: Seq<Arc<MastForest>>| #[trigger]
                libraries.len() == 3 && prover.code() == with_forests(
                    Map::<Commitment, Arc<MastForest>>::empty(),
                    libraries,
                ),
    {
        LocalTransactionProver::new(default_proving_options(), E::default())
    }
}

// ---------------------------------------------------------------------------
// What holds of every call
// ---------------------------------------------------------------------------

/// The record that proving drafts for a completed run, where it gets that
/// far: there is none where the outputs do not decode or the changes do not
/// apply.
pub open spec fn drafted_record(witness: TransactionWitness, output: ExecutionOutput) -> Option<
    TransactionRecordView,
> {
    match decoded_outputs(output.stack_outputs, output.advice_map, output.output_notes@) {
        Err(_) => None,
        Ok((final_account, expiration_block_num)) => match update_details(
            witness_account(witness),
            output.account_delta,
        ) {
            Err(_) => None,
            Ok(account_update) => Some(
                drafted(
                    witness,
                    final_account,
                    expiration_block_num,
                    output.output_notes@,
                    account_update,
                    output.proof,
                ),
            ),
        },
    }
}

/// Two runs on one witness that differ in nothing but the proof give records
/// that differ in nothing but the proof; with the same proof they give the
/// same result. What comes from the witness alone (the account, its initial
/// hash, the reference block, the consumed notes) is the same for any two
/// runs.
pub proof fn structure_is_determined(
    witness: TransactionWitness,
    a: ExecutionOutput,
    b: ExecutionOutput,
)
    ensures
        (drafted_record(witness, a), drafted_record(witness, b)) matches (Some(ra), Some(rb)) ==> {
            &&& ra.account_id == rb.account_id
            &&& ra.initial_account_hash == rb.initial_account_hash
            &&& ra.block_ref == rb.block_ref
            &&& ra.input_notes == rb.input_notes
        },
        ({
            &&& a.stack_outputs == b.stack_outputs
            &&& a.advice_map == b.advice_map
            &&& a.output_notes@ == b.output_notes@
            &&& a.account_delta == b.account_delta
        }) ==> {
            &&& drafted_record(witness, a) is Some <==> drafted_record(witness, b) is Some
            &&& (drafted_record(witness, a), drafted_record(witness, b)) matches (
                Some(ra),
                Some(rb),
            ) ==> ra == (TransactionRecordView { proof: a.proof, ..rb })
            &&& a.proof == b.proof ==> concluded(witness, ExecutionOutcome::Completed(a))
                == concluded(witness, ExecutionOutcome::Completed(b))
        },
{
}

/// What the engine is asked for a witness does not depend on what the prover
/// has proven or loaded before: two requests for one witness under the same
/// options agree in the machine's inputs, the account and the account codes.
/// The result of a call is `concluded` of the witness and the engine's
/// outcome, and depends on nothing else.
pub proof fn request_does_not_depend_on_history(
    witness: TransactionWitness,
    options: ProvingOptions,
    a: ExecutionRequest,
    b: ExecutionRequest,
)
    requires
        is_request_for(a, witness, options),
        is_request_for(b, witness, options),
    ensures
        a.stack_inputs == b.stack_inputs,
        a.advice_inputs == b.advice_inputs,
        a.account == b.account,
        a.account_codes@ == b.account_codes@,
        a.options == b.options,
{
}

/// The notes of a record are the produced notes, redacted: as many, in the
/// same order, and every one of them a header, the header of the note that
/// was produced in its place.
pub proof fn record_holds_redacted_notes(witness: TransactionWitness, output: ExecutionOutput)
    ensures
        drafted_record(witness, output) matches Some(record) ==> {
            &&& record.output_notes.len() == output.output_notes@.len()
            &&& forall|i: int|
                0 <= i < record.output_notes.len() ==> {
                    &&& (#[trigger] record.output_notes[i]) == OutputNote::Header(
                        output.output_notes@[i].header(),
                    )
                    &&& record.output_notes[i] is Header
                    &&& !record.output_notes[i].carries_payload()
                }
        },
{
}

/// The account update of a record follows from the account alone: none for
/// a private account, the changes as they are for a public account that
/// existed, the account with the changes applied for a new public account.
pub proof fn record_update_follows_account(witness: TransactionWitness, output: ExecutionOutput)
    ensures
        drafted_record(witness, output) matches Some(record) ==> {
            let account = witness_account(witness);
            &&& !account_is_public(account) ==> record.account_update
                == AccountUpdateDetails::Private
            &&& account_is_public(account) && !account_is_new(account) ==> record.account_update
                == AccountUpdateDetails::Delta(output.account_delta)
            &&& account_is_public(account) && account_is_new(account) ==> (account_after(
                account,
                output.account_delta,
            ) matches Ok(updated) && record.account_update == AccountUpdateDetails::New(updated))
        },
{
}

/// A proven transaction exists only when every stage has succeeded, and then
/// it is what the ledger's builder makes of the drafted record. Each failure
/// is reported under the stage that failed, with that stage's own error.
pub proof fn failure_leaves_no_record(witness: TransactionWitness, outcome: ExecutionOutcome)
    ensures
        concluded(witness, outcome) matches Ok(tx) ==> (outcome matches ExecutionOutcome::Completed(
            output,
        ) && (drafted_record(witness, output) matches Some(record) && ledger_record(record) == Ok::<
            ProvenTransaction,
            miden_objects::ProvenTransactionError,
        >(tx))),
        outcome matches ExecutionOutcome::HostCreationFailed(err) ==> concluded(witness, outcome)
            == Err::<ProvenTransaction, TransactionProverError>(
            TransactionProverError::TransactionHostCreationFailed(err),
        ),
        outcome matches ExecutionOutcome::ProgramExecutionFailed(err) ==> concluded(
            witness,
            outcome,
        ) == Err::<ProvenTransaction, TransactionProverError>(
            TransactionProverError::TransactionProgramExecutionFailed(err),
        ),
        outcome matches ExecutionOutcome::Completed(output) ==> {
            match decoded_outputs(output.stack_outputs, output.advice_map, output.output_notes@) {
                Err(err) => concluded(witness, outcome) == Err::<
                    ProvenTransaction,
                    TransactionProverError,
                >(TransactionProverError::TransactionOutputConstructionFailed(err)),
                Ok(_) => match update_details(witness_account(witness), output.account_delta) {
                    Err(err) => concluded(witness, outcome) == Err::<
                        ProvenTransaction,
                        TransactionProverError,
                    >(TransactionProverError::AccountDeltaApplyFailed(err)),
                    Ok(_) => match ledger_record(drafted_record(witness, output)->0) {
                        Err(err) => concluded(witness, outcome) == Err::<
                            ProvenTransaction,
                            TransactionProverError,
                        >(TransactionProverError::ProvenTransactionBuildFailed(err)),
                        Ok(tx) => concluded(witness, outcome) == Ok::<
                            ProvenTransaction,
                            TransactionProverError,
                        >(tx),
                    },
                },
            }
        },
{
}

} // verus!
