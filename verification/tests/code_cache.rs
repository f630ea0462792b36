use std::sync::Arc;

use miden_lib::transaction::TransactionKernel;
use miden_lib::{MidenLib, StdLibrary};
use miden_objects::account::AccountCode;
use miden_objects::assembly::mast::MastForest;
use miden_objects::assembly::Library;
use miden_objects::Digest;
use miden_processor::ExecutionError;
use miden_prover::ProvingOptions;
use tx_prover::code_cache::{CodeCache, Commitment};
use tx_prover::engine::{ExecutionEngine, ExecutionOutcome, ExecutionRequest};
use tx_prover::prover::LocalTransactionProver;

fn commitment_of(digest: Digest) -> Commitment {
    let words: [u64; 4] = digest.into();
    Commitment { e0: words[0], e1: words[1], e2: words[2], e3: words[3] }
}

fn roots(forest: &MastForest) -> Vec<Commitment> {
    forest.local_procedure_digests().map(commitment_of).collect()
}

fn wallet_forest() -> Arc<MastForest> {
    AccountCode::mock().mast()
}

struct IdleEngine;

impl ExecutionEngine for IdleEngine {
    fn execute(&mut self, _code: &CodeCache, _request: ExecutionRequest) -> ExecutionOutcome {
        ExecutionOutcome::ProgramExecutionFailed(ExecutionError::CallerNotInSyscall)
    }
}

impl Default for IdleEngine {
    fn default() -> Self {
        IdleEngine
    }
}

#[test]
fn new_cache_resolves_nothing() {
    let cache = CodeCache::new();
    for root in roots(&wallet_forest()) {
        assert!(!cache.contains(&root));
        assert!(cache.get(&root).is_none());
    }
}

#[test]
fn inserted_forest_resolves_by_each_of_its_procedures() {
    let forest = wallet_forest();
    let all = roots(&forest);
    assert!(all.len() > 1);
    let mut cache = CodeCache::new();

    cache.insert(forest.clone());

    for root in &all {
        assert!(cache.contains(root));
        assert!(Arc::ptr_eq(&cache.get(root).unwrap(), &forest));
    }
    let unknown = Commitment { e0: 1, e1: 2, e2: 3, e3: 4 };
    assert!(!cache.contains(&unknown));
    assert!(cache.get(&unknown).is_none());
}

#[test]
fn commitments_differ_in_any_one_element() {
    let forest = wallet_forest();
    let root = roots(&forest)[0];
    let mut cache = CodeCache::new();
    cache.insert(forest);
    assert!(cache.contains(&root));
    assert!(!cache.contains(&Commitment { e0: root.e0 ^ 1, ..root }));
    assert!(!cache.contains(&Commitment { e1: root.e1 ^ 1, ..root }));
    assert!(!cache.contains(&Commitment { e2: root.e2 ^ 1, ..root }));
    assert!(!cache.contains(&Commitment { e3: root.e3 ^ 1, ..root }));
}

#[test]
fn inserting_twice_is_inserting_once() {
    let forest = wallet_forest();
    let other = StdLibrary::default().mast_forest().clone();
    let mut cache = CodeCache::new();
    cache.insert(other.clone());
    cache.insert(forest.clone());
    let before: Vec<_> = roots(&forest).iter().chain(roots(&other).iter()).map(|r| cache.get(r)).collect();

    cache.insert(forest.clone());

    let after: Vec<_> = roots(&forest).iter().chain(roots(&other).iter()).map(|r| cache.get(r)).collect();
    assert_eq!(before.len(), after.len());
    for (b, a) in before.iter().zip(after.iter()) {
        assert!(Arc::ptr_eq(b.as_ref().unwrap(), a.as_ref().unwrap()));
    }
}

#[test]
fn later_forest_takes_over_shared_procedures() {
    let first = wallet_forest();
    let second = wallet_forest();
    assert!(!Arc::ptr_eq(&first, &second));
    assert_eq!(roots(&first), roots(&second));
    let mut cache = CodeCache::new();

    cache.insert(first.clone());
    cache.insert(second.clone());

    for root in roots(&first) {
        assert!(Arc::ptr_eq(&cache.get(&root).unwrap(), &second));
    }
}

#[test]
fn insert_all_registers_in_order() {
    let first = wallet_forest();
    let second = wallet_forest();
    let std = StdLibrary::default().mast_forest().clone();
    let mut cache = CodeCache::new();

    cache.insert_all(&vec![first.clone(), std.clone(), second.clone()]);

    for root in roots(&first) {
        assert!(Arc::ptr_eq(&cache.get(&root).unwrap(), &second));
    }
    for root in roots(&std) {
        assert!(Arc::ptr_eq(&cache.get(&root).unwrap(), &std));
    }
}

#[test]
fn new_prover_resolves_the_default_libraries() {
    let prover = LocalTransactionProver::new(ProvingOptions::default(), IdleEngine);
    let kernel = TransactionKernel::kernel();
    for forest in [
        kernel.mast_forest().clone(),
        StdLibrary::default().mast_forest().clone(),
        MidenLib::default().mast_forest().clone(),
    ] {
        let all = roots(&forest);
        assert!(!all.is_empty());
        for root in all {
            assert!(prover.lookup(&root).is_some());
        }
    }
    for root in roots(&wallet_forest()) {
        assert!(prover.lookup(&root).is_none());
    }
}

#[test]
fn default_prover_resolves_the_default_libraries() {
    let prover: LocalTransactionProver<IdleEngine> = Default::default();
    for root in roots(MidenLib::default().mast_forest()) {
        assert!(prover.lookup(&root).is_some());
    }
}

#[test]
fn load_library_registers_the_library() {
    let library: Library = AccountCode::mock_library(TransactionKernel::assembler());
    let all = roots(library.mast_forest());
    assert!(!all.is_empty());
    let mut prover = LocalTransactionProver::new(ProvingOptions::default(), IdleEngine);
    for root in &all {
        assert!(prover.lookup(root).is_none());
    }

    prover.load_library(&library);

    for root in &all {
        assert!(Arc::ptr_eq(&prover.lookup(root).unwrap(), library.mast_forest()));
    }
}

#[test]
fn loading_a_library_twice_changes_nothing() {
    let library: Library = AccountCode::mock_library(TransactionKernel::assembler());
    let probes: Vec<Commitment> = roots(library.mast_forest())
        .into_iter()
        .chain(roots(MidenLib::default().mast_forest()))
        .chain([Commitment { e0: 9, e1: 9, e2: 9, e3: 9 }])
        .collect();
    let mut prover = LocalTransactionProver::new(ProvingOptions::default(), IdleEngine);
    prover.load_library(&library);
    let before: Vec<_> = probes.iter().map(|p| prover.lookup(p)).collect();

    prover.load_library(&library);

    let after: Vec<_> = probes.iter().map(|p| prover.lookup(p)).collect();
    for (b, a) in before.iter().zip(after.iter()) {
        match (b, a) {
            (Some(b), Some(a)) => assert!(Arc::ptr_eq(b, a)),
            (None, None) => {},
            _ => panic!("a lookup changed"),
        }
    }
}
