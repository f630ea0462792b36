//! The boundary to the proving engine.
//!
//! The engine sets up the execution host, runs the transaction kernel on the
//! virtual machine and proves the run. It is handed everything it needs in a
//! request and reports back with an outcome. Nothing is assumed of an
//! engine: what the library does with an outcome is stated for every outcome.

use crate::code_cache::{CodeCache, Commitment};
use crate::errors::TransactionHostError;
use crate::notes::OutputNote;
use miden_objects::account::{AccountDelta, AccountHeader};
use miden_objects::vm::{AdviceInputs, AdviceMap, ExecutionProof, Program, StackInputs, StackOutputs};
use miden_processor::ExecutionError;
use miden_prover::ProvingOptions;
use vstd::prelude::*;

verus! {

/// What the engine is asked to execute and prove.
#[derive(Debug)]
pub struct ExecutionRequest {
    /// The program to run: the transaction kernel.
    pub program: Program,
    /// The machine's initial stack.
    pub stack_inputs: StackInputs,
    /// The advice inputs that back the host's advice provider.
    pub advice_inputs: AdviceInputs,
    /// The header of the account that the transaction runs against.
    pub account: AccountHeader,
    /// The commitments of the account codes that the transaction may
    /// invoke, each once.
    pub account_codes: Vec<Commitment>,
    /// The parameters of proof generation.
    pub options: ProvingOptions,
}

/// What a completed run leaves behind: the machine's outputs and proof, and
/// the host's final state.
#[derive(Debug)]
pub struct ExecutionOutput {
    /// The machine's final stack.
    pub stack_outputs: StackOutputs,
    /// The proof of the run.
    pub proof: ExecutionProof,
    /// The advice provider's map at the end of the run.
    pub advice_map: AdviceMap,
    /// The changes to the account that the host accumulated.
    pub account_delta: AccountDelta,
    /// The notes that the run produced, in the order of their creation.
    pub output_notes: Vec<OutputNote>,
}

/// How a run ended.
#[derive(Debug)]
pub enum ExecutionOutcome {
    /// The host could not be set up; the program was not run.
    HostCreationFailed(TransactionHostError),
    /// The program failed, or no proof could be generated.
    ProgramExecutionFailed(ExecutionError),
    /// The program ran and was proven.
    Completed(ExecutionOutput),
}

/// A proving engine. During a run the engine's host resolves code through
/// the cache it is given.
pub trait ExecutionEngine {
    /// Sets up a host for the request, runs the program and proves the run.
    fn execute(&mut self, code: &CodeCache, request: ExecutionRequest) -> ExecutionOutcome;
}

} // verus!
