//! The ledger's own data types and the calls this library makes into the
//! ledger crates.
//!
//! Every item in this file is trusted: Verus takes the type declarations and
//! the contracts of the wrappers as given. A wrapper makes the call that its
//! doc comment names and converts what goes in and what comes out, nothing
//! else. A spec function without a body names what such a call returns; it
//! stands for a value that depends on the arguments alone.

use crate::account_update::AccountUpdateDetails;
use crate::code_cache::Commitment;
use crate::notes::OutputNote;
use crate::record::{TransactionRecord, TransactionRecordView};
use miden_lib::transaction::TransactionKernel;
use miden_objects::account::delta::AccountUpdateDetails as LedgerUpdate;
use miden_objects::account::{Account, AccountDelta, AccountHeader, AccountId};
use miden_objects::assembly::mast::MastForest;
use miden_objects::assembly::Library;
use miden_objects::note::{Note, NoteHeader, PartialNote};
use miden_objects::transaction::OutputNote as LedgerNote;
use miden_objects::transaction::{
    InputNoteCommitment, ProvenTransaction, ProvenTransactionBuilder, TransactionWitness,
};
use miden_objects::vm::{AdviceInputs, AdviceMap, ExecutionProof, Program, StackInputs, StackOutputs};
use miden_objects::{
    AccountError, AssetError, AssetVaultError, Digest, ProvenTransactionError,
    TransactionOutputError,
};
use miden_prover::ProvingOptions;
use std::sync::Arc;
use vstd::prelude::*;

verus! {

// ---------------------------------------------------------------------------
// Opaque types
//
// Each declaration makes a type of the ledger crates known to Verus. A value
// of such a type can be held and handed on; nothing is known of what it
// holds.
// ---------------------------------------------------------------------------

#[verifier::external_type_specification]
#[verifier::external_body]
pub struct ExMastForest(miden_objects::assembly::mast::MastForest);

#[verifier::external_type_specification]
#[verifier::external_body]
pub struct ExLibrary(miden_objects::assembly::Library);

#[verifier::external_type_specification]
#[verifier::external_body]
pub struct ExProgram(miden_objects::vm::Program);

#[verifier::external_type_specification]
#[verifier::external_body]
pub struct ExTransactionWitness(miden_objects::transaction::TransactionWitness);

#[verifier::external_type_specification]
#[verifier::external_body]
pub struct ExInputNoteCommitment(miden_objects::transaction::InputNoteCommitment);

#[verifier::external_type_specification]
#[verifier::external_body]
pub struct ExLedgerTransaction(miden_objects::transaction::ProvenTransaction);

#[verifier::external_type_specification]
#[verifier::external_body]
pub struct ExAccount(miden_objects::account::Account);

#[verifier::external_type_specification]
#[verifier::external_body]
pub struct ExAccountDelta(miden_objects::account::AccountDelta);

#[verifier::external_type_specification]
#[verifier::external_body]
pub struct ExAccountHeader(miden_objects::account::AccountHeader);

#[verifier::external_type_specification]
#[verifier::external_body]
pub struct ExAccountId(miden_objects::account::AccountId);

#[verifier::external_type_specification]
#[verifier::external_body]
pub struct ExDigest(miden_objects::Digest);

/// The field element. No function of the library takes or returns one; Verus
/// asks for the declaration because digests and the machine's stacks
/// dereference to arrays of field elements.
#[verifier::external_type_specification]
#[verifier::external_body]
pub struct ExFelt(miden_objects::Felt);

#[verifier::external_type_specification]
#[verifier::external_body]
pub struct ExNote(miden_objects::note::Note);

#[verifier::external_type_specification]
#[verifier::external_body]
pub struct ExPartialNote(miden_objects::note::PartialNote);

#[verifier::external_type_specification]
#[verifier::external_body]
pub struct ExNoteHeader(miden_objects::note::NoteHeader);

#[verifier::external_type_specification]
#[verifier::external_body]
pub struct ExAdviceInputs(miden_objects::vm::AdviceInputs);

#[verifier::external_type_specification]
#[verifier::external_body]
pub struct ExAdviceMap(miden_objects::vm::AdviceMap);

#[verifier::external_type_specification]
#[verifier::external_body]
pub struct ExStackInputs(miden_objects::vm::StackInputs);

#[verifier::external_type_specification]
#[verifier::external_body]
pub struct ExStackOutputs(miden_objects::vm::StackOutputs);

#[verifier::external_type_specification]
#[verifier::external_body]
pub struct ExExecutionProof(miden_objects::vm::ExecutionProof);

#[verifier::external_type_specification]
#[verifier::external_body]
pub struct ExProvingOptions(miden_prover::ProvingOptions);

#[verifier::external_type_specification]
#[verifier::external_body]
pub struct ExExecutionError(miden_processor::ExecutionError);

#[verifier::external_type_specification]
#[verifier::external_body]
pub struct ExAccountError(miden_objects::AccountError);

#[verifier::external_type_specification]
#[verifier::external_body]
pub struct ExTransactionOutputError(miden_objects::TransactionOutputError);

#[verifier::external_type_specification]
#[verifier::external_body]
pub struct ExProvenTransactionError(miden_objects::ProvenTransactionError);

// ---------------------------------------------------------------------------
// Code commitments and forests
// ---------------------------------------------------------------------------

/// The commitments of the procedures that a forest defines itself, in the
/// order in which the forest lists its roots.
pub uninterp spec fn forest_procedure_roots(forest: Arc<MastForest>) -> Seq<Commitment>;

/// The forest that backs a library.
pub uninterp spec fn library_forest(library: Library) -> Arc<MastForest>;

/// Calls `MastForest::local_procedure_digests` and turns each digest into its
/// four integers with `From<RpoDigest> for [u64; 4]`.
#[verifier::external_body]
pub(crate) fn procedure_roots(forest: &Arc<MastForest>) -> (roots: Vec<Commitment>)
    ensures
        roots@ == forest_procedure_roots(*forest),
{
    forest
        .local_procedure_digests()
        .map(|digest| {
            let words: [u64; 4] = digest.into();
            Commitment { e0: words[0], e1: words[1], e2: words[2], e3: words[3] }
        })
        .collect()
}

/// Calls `Library::mast_forest` and shares the forest it points to.
#[verifier::external_body]
pub(crate) fn forest_of_library(library: &Library) -> (forest: Arc<MastForest>)
    ensures
        forest == library_forest(*library),
{
    library.mast_forest().clone()
}

/// Calls `Arc::clone`: the new handle points to the same forest.
#[verifier::external_body]
pub(crate) fn share_forest(forest: &Arc<MastForest>) -> (shared: Arc<MastForest>)
    ensures
        shared == *forest,
{
    Arc::clone(forest)
}

/// Calls `TransactionKernel::kernel` and takes the forest of the kernel
/// library. The call reads bytes that are compiled into the ledger crate and
/// fails on none of them.
#[verifier::external_body]
pub(crate) fn kernel_forest() -> Arc<MastForest> {
    TransactionKernel::kernel().mast_forest().clone()
}

/// Calls `StdLibrary::default` and takes the forest of the standard library.
#[verifier::external_body]
pub(crate) fn standard_library_forest() -> Arc<MastForest> {
    miden_lib::StdLibrary::default().mast_forest().clone()
}

/// Calls `MidenLib::default` and takes the forest of the rollup library.
#[verifier::external_body]
pub(crate) fn rollup_library_forest() -> Arc<MastForest> {
    miden_lib::MidenLib::default().mast_forest().clone()
}

/// Calls `TransactionKernel::main`: the program that every transaction runs.
#[verifier::external_body]
pub(crate) fn kernel_program() -> Program {
    TransactionKernel::main()
}

// ---------------------------------------------------------------------------
// Reading a witness
// ---------------------------------------------------------------------------

/// The account that the witnessed transaction runs against, before execution.
pub uninterp spec fn witness_account(witness: TransactionWitness) -> Account;

/// The commitments of the notes that the witnessed transaction consumes, in
/// the order of the witness.
pub uninterp spec fn witness_input_notes(witness: TransactionWitness) -> Seq<InputNoteCommitment>;

/// The hash of the witness's reference block.
pub uninterp spec fn witness_block_ref(witness: TransactionWitness) -> Digest;

/// The forests of the account codes that the witness carries, in its order.
pub uninterp spec fn witness_code_forests(witness: TransactionWitness) -> Seq<Arc<MastForest>>;

/// The commitments of the account codes that the witness carries, in its order.
pub uninterp spec fn witness_code_commitments(witness: TransactionWitness) -> Seq<Commitment>;

/// The forests of the scripts of the consumed notes, in the order of the notes.
pub uninterp spec fn witness_note_script_forests(witness: TransactionWitness) -> Seq<
    Arc<MastForest>,
>;

/// The forest of the transaction script, if the witness has one.
pub uninterp spec fn witness_tx_script_forest(witness: TransactionWitness) -> Option<
    Arc<MastForest>,
>;

/// The stack inputs and advice inputs that the kernel derives from a witness.
pub uninterp spec fn kernel_inputs(witness: TransactionWitness) -> (StackInputs, AdviceInputs);

/// Calls `TransactionInputs::account`.
#[verifier::external_body]
pub(crate) fn account_of(witness: &TransactionWitness) -> (account: &Account)
    ensures
        *account == witness_account(*witness),
{
    witness.tx_inputs.account()
}

/// Calls `TransactionInputs::input_notes` and turns each note into its
/// commitment with `From<&InputNote> for InputNoteCommitment`.
#[verifier::external_body]
pub(crate) fn input_note_commitments(witness: &TransactionWitness) -> (notes: Vec<
    InputNoteCommitment,
>)
    ensures
        notes@ == witness_input_notes(*witness),
{
    witness.tx_inputs.input_notes().iter().map(InputNoteCommitment::from).collect()
}

/// Calls `BlockHeader::hash` on the witness's block header.
#[verifier::external_body]
pub(crate) fn block_reference(witness: &TransactionWitness) -> (block_ref: Digest)
    ensures
        block_ref == witness_block_ref(*witness),
{
    witness.tx_inputs.block_header().hash()
}

/// Calls `AccountCode::mast` on each account code of the witness.
#[verifier::external_body]
pub(crate) fn account_code_forests(witness: &TransactionWitness) -> (forests: Vec<
    Arc<MastForest>,
>)
    ensures
        forests@ == witness_code_forests(*witness),
{
    witness.account_codes.iter().map(|code| code.mast()).collect()
}

/// Calls `AccountCode::commitment` on each account code of the witness and
/// turns each digest into its four integers.
#[verifier::external_body]
pub(crate) fn account_code_commitments(witness: &TransactionWitness) -> (commitments: Vec<
    Commitment,
>)
    ensures
        commitments@ == witness_code_commitments(*witness),
{
    witness
        .account_codes
        .iter()
        .map(|code| {
            let words: [u64; 4] = code.commitment().into();
            Commitment { e0: words[0], e1: words[1], e2: words[2], e3: words[3] }
        })
        .collect()
}

/// Calls `NoteScript::mast` on the script of each consumed note.
#[verifier::external_body]
pub(crate) fn note_script_forests(witness: &TransactionWitness) -> (forests: Vec<Arc<MastForest>>)
    ensures
        forests@ == witness_note_script_forests(*witness),
{
    witness.tx_inputs.input_notes().iter().map(|note| note.note().script().mast()).collect()
}

/// Calls `TransactionArgs::tx_script` and, on a script, `TransactionScript::mast`.
#[verifier::external_body]
pub(crate) fn tx_script_forest(witness: &TransactionWitness) -> (forest: Option<Arc<MastForest>>)
    ensures
        forest == witness_tx_script_forest(*witness),
{
    witness.tx_args.tx_script().map(|script| script.mast())
}

/// Calls `TransactionKernel::prepare_inputs` with the witness's inputs,
/// arguments and advice data. The call does not fail on inputs that
/// `TransactionInputs::new` has accepted.
#[verifier::external_body]
pub(crate) fn prepare_inputs(witness: &TransactionWitness) -> (inputs: (StackInputs, AdviceInputs))
    ensures
        inputs == kernel_inputs(*witness),
{
    TransactionKernel::prepare_inputs(
        &witness.tx_inputs,
        &witness.tx_args,
        Some(witness.advice_witness.clone()),
    )
}

// ---------------------------------------------------------------------------
// Accounts
// ---------------------------------------------------------------------------

/// The identifier of an account.
pub uninterp spec fn account_id(account: Account) -> AccountId;

/// The state hash that a transaction's public inputs carry for an account:
/// the empty word for a new account, the account's hash otherwise.
pub uninterp spec fn account_init_hash(account: Account) -> Digest;

/// Whether an account's state is kept on the ledger.
pub uninterp spec fn account_is_public(account: Account) -> bool;

/// Whether an account has not been initialised yet.
pub uninterp spec fn account_is_new(account: Account) -> bool;

/// The header of an account: its identifier, nonce and commitments.
pub uninterp spec fn account_header(account: Account) -> AccountHeader;

/// The forest of an account's code.
pub uninterp spec fn account_code_forest(account: Account) -> Arc<MastForest>;

/// The hash of the account state that a header describes.
pub uninterp spec fn account_header_hash(header: AccountHeader) -> Digest;

/// The account that results from applying a delta to an account, or the
/// reason why the ledger does not apply the delta.
pub uninterp spec fn account_with_delta(account: Account, delta: AccountDelta) -> Result<
    Account,
    AccountError,
>;

/// Calls `Account::id`.
#[verifier::external_body]
pub(crate) fn id_of(account: &Account) -> (id: AccountId)
    ensures
        id == account_id(*account),
{
    account.id()
}

/// Calls `Account::init_hash`.
#[verifier::external_body]
pub(crate) fn init_hash_of(account: &Account) -> (hash: Digest)
    ensures
        hash == account_init_hash(*account),
{
    account.init_hash()
}

/// Calls `Account::is_public`.
#[verifier::external_body]
pub(crate) fn is_public(account: &Account) -> (public: bool)
    ensures
        public == account_is_public(*account),
{
    account.is_public()
}

/// Calls `Account::is_new`.
#[verifier::external_body]
pub(crate) fn is_new(account: &Account) -> (new: bool)
    ensures
        new == account_is_new(*account),
{
    account.is_new()
}

/// Calls `From<&Account> for AccountHeader`.
#[verifier::external_body]
pub(crate) fn header_of(account: &Account) -> (header: AccountHeader)
    ensures
        header == account_header(*account),
{
    AccountHeader::from(account)
}

/// Calls `Account::code` and `AccountCode::mast`.
#[verifier::external_body]
pub(crate) fn code_forest_of(account: &Account) -> (forest: Arc<MastForest>)
    ensures
        forest == account_code_forest(*account),
{
    account.code().mast()
}

/// Calls `AccountHeader::hash`.
#[verifier::external_body]
pub(crate) fn header_hash(header: &AccountHeader) -> (hash: Digest)
    ensures
        hash == account_header_hash(*header),
{
    header.hash()
}

/// The changes of fungible balances that a delta holds, one for each faucet,
/// in the order of the faucets.
pub uninterp spec fn delta_fungible_changes(delta: AccountDelta) -> Seq<i64>;

/// The error, of the ledger's type, that this library gives for a change of
/// a balance whose size is larger than any asset amount.
pub uninterp spec fn balance_change_error(size: u64) -> AccountError;

/// Calls `AccountDelta::vault`, `AccountVaultDelta::fungible` and
/// `FungibleAssetDelta::iter`, and hands out the amount of each entry.
#[verifier::external_body]
pub(crate) fn fungible_changes(delta: &AccountDelta) -> (changes: Vec<i64>)
    ensures
        changes@ == delta_fungible_changes(*delta),
{
    delta.vault().fungible().iter().map(|(_, change)| *change).collect()
}

/// Builds an error of the ledger's type for a change of a balance that the
/// ledger's vault cannot take: `AssetError::FungibleAssetAmountTooBig` with
/// the size, as the source of
/// `AssetVaultError::SubtractFungibleAssetBalanceError`, inside
/// `AccountError::AssetVaultUpdateError`. The ledger itself has no error for
/// such a change; this one is the library's choice among the ledger's
/// variants.
#[verifier::external_body]
pub(crate) fn balance_change_too_big(size: u64) -> (err: AccountError)
    ensures
        err == balance_change_error(size),
{
    AccountError::AssetVaultUpdateError(
        AssetVaultError::SubtractFungibleAssetBalanceError(
            AssetError::FungibleAssetAmountTooBig(size),
        ),
    )
}

/// Calls `Account::apply_delta` on a clone of the account, so that the
/// caller's account stays as it is. The vault takes the size of each change
/// of a fungible balance as an asset amount and panics where the size is
/// 2^63, which only the smallest `i64` has: a delta with that change is left
/// out.
#[verifier::external_body]
pub(crate) fn apply_delta(account: &Account, delta: &AccountDelta) -> (updated: Result<
    Account,
    AccountError,
>)
    requires
        forall|i: int|
            0 <= i < delta_fungible_changes(*delta).len() ==> delta_fungible_changes(*delta)[i]
                > i64::MIN,
    ensures
        updated == account_with_delta(*account, *delta),
{
    let mut updated = account.clone();
    match updated.apply_delta(delta) {
        Ok(()) => Ok(updated),
        Err(err) => Err(err),
    }
}

// ---------------------------------------------------------------------------
// Output notes
// ---------------------------------------------------------------------------

/// The header of a full note: its identifier and metadata.
pub uninterp spec fn note_header(note: Note) -> NoteHeader;

/// The header of a partial note: its identifier and metadata.
pub uninterp spec fn partial_note_header(note: PartialNote) -> NoteHeader;

/// Calls `From<&OutputNote> for NoteHeader` on the ledger's form of the
/// note: the header that a full note holds, the header made of a partial
/// note's identifier and metadata, or the header itself.
#[verifier::external_body]
pub(crate) fn header_of_note(note: &OutputNote) -> (header: NoteHeader)
    ensures
        header == match *note {
            OutputNote::Full(full) => note_header(full),
            OutputNote::Partial(partial) => partial_note_header(partial),
            OutputNote::Header(header) => header,
        },
{
    let ledger = match note {
        OutputNote::Full(full) => LedgerNote::Full(full.clone()),
        OutputNote::Partial(partial) => LedgerNote::Partial(partial.clone()),
        OutputNote::Header(header) => LedgerNote::Header(*header),
    };
    NoteHeader::from(&ledger)
}

// ---------------------------------------------------------------------------
// Transaction outputs
// ---------------------------------------------------------------------------

/// What the kernel's output decoder makes of the machine's stack outputs, the
/// final advice map and the notes that execution produced: the header of the
/// account's final state and the block number at which the transaction
/// expires, or the reason why the outputs are not consistent.
pub uninterp spec fn decoded_outputs(
    stack_outputs: StackOutputs,
    advice_map: AdviceMap,
    output_notes: Seq<OutputNote>,
) -> Result<(AccountHeader, u32), TransactionOutputError>;

/// Calls `TransactionKernel::from_transaction_parts`. On success the decoder
/// hands the notes back as it got them, so only the account header and the
/// expiration block number are taken from its result. The decoder reads the
/// first sixteen elements of the stack outputs, which every value of the
/// type has.
#[verifier::external_body]
pub(crate) fn decode_outputs(
    stack_outputs: &StackOutputs,
    advice_map: &AdviceMap,
    output_notes: &Vec<OutputNote>,
) -> (decoded: Result<(AccountHeader, u32), TransactionOutputError>)
    ensures
        decoded == decoded_outputs(*stack_outputs, *advice_map, output_notes@),
{
    let notes = output_notes.iter().map(|note| match note {
        OutputNote::Full(full) => LedgerNote::Full(full.clone()),
        OutputNote::Partial(partial) => LedgerNote::Partial(partial.clone()),
        OutputNote::Header(header) => LedgerNote::Header(*header),
    });
    match TransactionKernel::from_transaction_parts(stack_outputs, advice_map, notes.collect()) {
        Ok(outputs) => Ok((outputs.account, outputs.expiration_block_num.as_u32())),
        Err(err) => Err(err),
    }
}

// ---------------------------------------------------------------------------
// The ledger's record
// ---------------------------------------------------------------------------

/// What the ledger's builder makes of a record: the ledger's own proven
/// transaction, or the reason why the builder refuses the record.
pub uninterp spec fn ledger_record(tx: TransactionRecordView) -> Result<
    ProvenTransaction,
    ProvenTransactionError,
>;

/// Calls `ProvenTransactionBuilder::new`, hands the builder the record's
/// input notes, output notes and account update, each written in the
/// ledger's type, and calls `ProvenTransactionBuilder::build`.
#[verifier::external_body]
pub(crate) fn build_ledger_record(tx: TransactionRecord) -> (built: Result<
    ProvenTransaction,
    ProvenTransactionError,
>)
    ensures
        built == ledger_record(tx@),
{
    let notes = tx.output_notes.into_iter().map(|note| match note {
        OutputNote::Full(full) => LedgerNote::Full(full),
        OutputNote::Partial(partial) => LedgerNote::Partial(partial),
        OutputNote::Header(header) => LedgerNote::Header(header),
    });
    let update = match tx.account_update {
        AccountUpdateDetails::Private => LedgerUpdate::Private,
        AccountUpdateDetails::New(account) => LedgerUpdate::New(account),
        AccountUpdateDetails::Delta(delta) => LedgerUpdate::Delta(delta),
    };
    let (from, to, at) = (tx.initial_account_hash, tx.final_account_hash, tx.expiration_block_num);
    ProvenTransactionBuilder::new(tx.account_id, from, to, tx.block_ref, at.into(), tx.proof)
        .add_input_notes(tx.input_notes).add_output_notes(notes)
        .account_update_details(update).build()
}

// ---------------------------------------------------------------------------
// Proving options
// ---------------------------------------------------------------------------

/// Calls `ProvingOptions::default`.
#[verifier::external_body]
pub(crate) fn default_proving_options() -> ProvingOptions {
    ProvingOptions::default()
}

/// Calls `ProvingOptions::clone`: the copy equals the options it was made of.
#[verifier::external_body]
pub(crate) fn copy_proving_options(options: &ProvingOptions) -> (copy: ProvingOptions)
    ensures
        copy == *options,
{
    options.clone()
}

} // verus!
