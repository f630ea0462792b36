//! The code cache: a registry from code commitments to the forests that hold
//! the code.
//!
//! The cache only grows. Registering a forest makes every procedure that the
//! forest defines resolvable by its commitment; registering the same forest
//! again changes nothing.

use crate::ledger::{
    account_code_forest, account_code_forests, account_of, code_forest_of, forest_procedure_roots,
    note_script_forests, procedure_roots, share_forest, tx_script_forest, witness_account,
    witness_code_forests, witness_note_script_forests, witness_tx_script_forest,
};
use miden_objects::transaction::TransactionWitness;
use miden_objects::assembly::mast::MastForest;
use std::sync::Arc;
use vstd::prelude::*;

verus! {

/// A code commitment: the four field elements of a digest, each in its
/// canonical integer form.
#[derive(Clone, Copy, Debug, PartialEq, Eq, Structural)]
pub struct Commitment {
    pub e0: u64,
    pub e1: u64,
    pub e2: u64,
    pub e3: u64,
}

/// One registered procedure: its commitment and the forest that defines it.
struct CacheEntry {
    root: Commitment,
    forest: Arc<MastForest>,
}

/// `entries[i]` is the first entry for `root`.
spec fn is_first_entry(entries: Seq<CacheEntry>, i: int, root: Commitment) -> bool {
    &&& 0 <= i < entries.len()
    &&& entries[i].root == root
    &&& forall|j: int| 0 <= j < i ==> (#[trigger] entries[j]).root != root
}

/// Some entry is registered under `root`.
spec fn has_entry(entries: Seq<CacheEntry>, root: Commitment) -> bool {
    exists|i: int| 0 <= i < entries.len() && (#[trigger] entries[i]).root == root
}

/// The index of the first entry for `root`.
spec fn first_entry(entries: Seq<CacheEntry>, root: Commitment) -> int {
    choose|i: int| is_first_entry(entries, i, root)
}

/// What a list of entries resolves: each registered commitment, and the forest
/// of its first entry.
spec fn resolved(entries: Seq<CacheEntry>) -> Map<Commitment, Arc<MastForest>> {
    Map::new(
        |root: Commitment| has_entry(entries, root),
        |root: Commitment| entries[first_entry(entries, root)].forest,
    )
}

/// The cache `code` after `forest` has been registered under each of `roots`.
pub open spec fn registered(
    code: Map<Commitment, Arc<MastForest>>,
    roots: Seq<Commitment>,
    forest: Arc<MastForest>,
) -> Map<Commitment, Arc<MastForest>> {
    Map::new(
        |root: Commitment| code.dom().contains(root) || roots.contains(root),
        |root: Commitment|
            if roots.contains(root) {
                forest
            } else {
                code[root]
            },
    )
}

/// The cache `code` after a forest has been registered: every procedure that
/// the forest defines now resolves to it.
pub open spec fn with_forest(code: Map<Commitment, Arc<MastForest>>, forest: Arc<MastForest>) -> Map<
    Commitment,
    Arc<MastForest>,
> {
    registered(code, forest_procedure_roots(forest), forest)
}

/// The cache `code` after each of `forests` has been registered, first to last.
pub open spec fn with_forests(
    code: Map<Commitment, Arc<MastForest>>,
    forests: Seq<Arc<MastForest>>,
) -> Map<Commitment, Arc<MastForest>>
    decreases forests.len(),
{
    if forests.len() == 0 {
        code
    } else {
        with_forest(with_forests(code, forests.drop_last()), forests.last())
    }
}

/// The forests that hold the code of a witnessed transaction itself: the
/// account's code, then the script of each consumed note, then the
/// transaction script if there is one.
pub open spec fn transaction_forests(witness: TransactionWitness) -> Seq<Arc<MastForest>> {
    seq![account_code_forest(witness_account(witness))] + witness_note_script_forests(witness)
        + match witness_tx_script_forest(witness) {
        Some(forest) => seq![forest],
        None => Seq::<Arc<MastForest>>::empty(),
    }
}

/// The cache `code` after all code that a witness refers to has been
/// registered: first the account codes that the witness carries, then the
/// code of the transaction itself.
pub open spec fn with_witness_code(
    code: Map<Commitment, Arc<MastForest>>,
    witness: TransactionWitness,
) -> Map<Commitment, Arc<MastForest>> {
    with_forests(with_forests(code, witness_code_forests(witness)), transaction_forests(witness))
}

/// If some entry has the root, a first one exists, and it is the one that
/// `first_entry` picks.
proof fn lemma_first_entry_exists(entries: Seq<CacheEntry>, root: Commitment)
    requires
        has_entry(entries, root),
    ensures
        is_first_entry(entries, first_entry(entries, root), root),
{
    let i = choose|i: int| 0 <= i < entries.len() && (#[trigger] entries[i]).root == root;
    lemma_first_entry_before(entries, i, root);
}

/// An entry for `root` at index `i` has a first entry at or before it.
proof fn lemma_first_entry_before(entries: Seq<CacheEntry>, i: int, root: Commitment)
    requires
        0 <= i < entries.len(),
        entries[i].root == root,
    ensures
        exists|k: int| is_first_entry(entries, k, root),
    decreases i,
{
    if forall|j: int| 0 <= j < i ==> (#[trigger] entries[j]).root != root {
        assert(is_first_entry(entries, i, root));
    } else {
        let j = choose|j: int| 0 <= j < i && (#[trigger] entries[j]).root == root;
        lemma_first_entry_before(entries, j, root);
    }
}

/// The first entry for a root is unique.
proof fn lemma_first_entry_unique(entries: Seq<CacheEntry>, i: int, root: Commitment)
    requires
        is_first_entry(entries, i, root),
    ensures
        has_entry(entries, root),
        first_entry(entries, root) == i,
{
    assert(has_entry(entries, root));
    let k = first_entry(entries, root);
    if k < i {
        assert(entries[k].root != root);
    } else if i < k {
        assert(entries[i].root != root);
    }
}

/// A content-addressed registry of executable code.
pub struct CodeCache {
    entries: Vec<CacheEntry>,
}

impl View for CodeCache {
    type V = Map<Commitment, Arc<MastForest>>;

    closed spec fn view(&self) -> Map<Commitment, Arc<MastForest>> {
        resolved(self.entries@)
    }
}

impl CodeCache {
    /// An empty cache.
    pub fn new() -> (cache: CodeCache)
        ensures
            cache@ == Map::<Commitment, Arc<MastForest>>::empty(),
    {
        let cache = CodeCache { entries: Vec::new() };
        assert(cache@ =~= Map::<Commitment, Arc<MastForest>>::empty());
        cache
    }

    /// The position of the first entry for `root`, if there is one.
    fn find(&self, root: &Commitment) -> (found: Option<usize>)
        ensures
            match found {
                Some(i) => is_first_entry(self.entries@, i as int, *root),
                None => !has_entry(self.entries@, *root),
            },
    {
        let mut i: usize = 0;
        while i < self.entries.len()
            invariant
                i <= self.entries.len(),
                forall|j: int| 0 <= j < i ==> (#[trigger] self.entries@[j]).root != *root,
            decreases self.entries.len() - i,
        {
            if self.entries[i].root == *root {
                return Some(i);
            }
            i += 1;
        }
        None
    }

    /// Whether code is registered under `root`.
    pub fn contains(&self, root: &Commitment) -> (known: bool)
        ensures
            known == self@.dom().contains(*root),
    {
        match self.find(root) {
            Some(i) => {
                proof {
                    lemma_first_entry_unique(self.entries@, i as int, *root);
                }
                true
            },
            None => false,
        }
    }

    /// The forest registered under `root`, if any.
    pub fn get(&self, root: &Commitment) -> (forest: Option<Arc<MastForest>>)
        ensures
            forest == if self@.dom().contains(*root) {
                Some(self@[*root])
            } else {
                None
            },
    {
        match self.find(root) {
            Some(i) => {
                proof {
                    lemma_first_entry_unique(self.entries@, i as int, *root);
                }
                Some(share_forest(&self.entries[i].forest))
            },
            None => None,
        }
    }

    /// Registers `forest` under the single commitment `root`, replacing what
    /// was registered under it before.
    fn register(&mut self, root: Commitment, forest: Arc<MastForest>)
        ensures
            final(self)@ == old(self)@.insert(root, forest),
    {
        let ghost before = self.entries@;
        match self.find(&root) {
            Some(i) => {
                self.entries.set(i, CacheEntry { root, forest });
                proof {
                    let after = self.entries@;
                    assert forall|k: Commitment| has_entry(after, k) == has_entry(before, k) by {
                        if has_entry(before, k) {
                            let j = choose|j: int|
                                0 <= j < before.len() && (#[trigger] before[j]).root == k;
                            assert(after[j].root == k);
                        }
                        if has_entry(after, k) {
                            let j = choose|j: int|
                                0 <= j < after.len() && (#[trigger] after[j]).root == k;
                            assert(before[j].root == k);
                        }
                    }
                    assert forall|k: Commitment| has_entry(after, k) implies #[trigger] resolved(
                        after,
                    )[k] == old(self)@.insert(root, forest)[k] by {
                        lemma_first_entry_exists(before, k);
                        let f = first_entry(before, k);
                        assert(is_first_entry(after, f, k)) by {
                            assert forall|j: int| 0 <= j < f implies (#[trigger] after[j]).root
                                != k by {
                                assert(before[j].root != k);
                            }
                        }
                        lemma_first_entry_unique(after, f, k);
                        if k == root {
                            lemma_first_entry_unique(before, i as int, root);
                        }
                    }
                    assert(self@ =~= old(self)@.insert(root, forest));
                }
            },
            None => {
                self.entries.push(CacheEntry { root, forest });
                proof {
                    let after = self.entries@;
                    let n = before.len() as int;
                    assert(after[n].root == root);
                    assert forall|k: Commitment|
                        has_entry(after, k) == (has_entry(before, k) || k == root) by {
                        if has_entry(before, k) {
                            let j = choose|j: int|
                                0 <= j < before.len() && (#[trigger] before[j]).root == k;
                            assert(after[j].root == k);
                        }
                        if has_entry(after, k) && k != root {
                            let j = choose|j: int|
                                0 <= j < after.len() && (#[trigger] after[j]).root == k;
                            assert(before[j].root == k);
                        }
                    }
                    assert forall|k: Commitment| has_entry(after, k) implies #[trigger] resolved(
                        after,
                    )[k] == old(self)@.insert(root, forest)[k] by {
                        if k == root {
                            assert(is_first_entry(after, n, root)) by {
                                assert forall|j: int| 0 <= j < n implies (#[trigger] after[j]).root
                                    != root by {
                                    assert(before[j].root != root);
                                }
                            }
                            lemma_first_entry_unique(after, n, root);
                        } else {
                            lemma_first_entry_exists(before, k);
                            let f = first_entry(before, k);
                            assert(is_first_entry(after, f, k)) by {
                                assert forall|j: int| 0 <= j < f implies (#[trigger] after[j]).root
                                    != k by {
                                    assert(before[j].root != k);
                                }
                            }
                            lemma_first_entry_unique(after, f, k);
                        }
                    }
                    assert(self@ =~= old(self)@.insert(root, forest));
                }
            },
        }
    }

    /// Registers every procedure that `forest` defines. Procedures that were
    /// registered before now resolve to `forest`; all other entries stay.
    pub fn insert(&mut self, forest: Arc<MastForest>)
        ensures
            final(self)@ == with_forest(old(self)@, forest),
    {
        let roots = procedure_roots(&forest);
        let mut i: usize = 0;
        while i < roots.len()
            invariant
                i <= roots.len(),
                roots@ == forest_procedure_roots(forest),
                self@ == registered(old(self)@, roots@.take(i as int), forest),
            decreases roots.len() - i,
        {
            let ghost before = self@;
            self.register(roots[i], share_forest(&forest));
            proof {
                let done = roots@.take(i as int);
                let next = roots@.take(i + 1);
                assert forall|k: Commitment| next.contains(k) == (done.contains(k) || k
                    == roots@[i as int]) by {
                    if next.contains(k) {
                        let j = choose|j: int| 0 <= j < next.len() && next[j] == k;
                        if j < i {
                            assert(done[j] == k);
                        }
                    }
                    if done.contains(k) {
                        let j = choose|j: int| 0 <= j < done.len() && done[j] == k;
                        assert(next[j] == k);
                    }
                    assert(next[i as int] == roots@[i as int]);
                }
                assert(self@ =~= registered(old(self)@, next, forest));
            }
            i += 1;
        }
        proof {
            assert(roots@.take(roots.len() as int) =~= roots@);
        }
    }
    /// Registers each forest of a list, first to last.
    pub fn insert_all(&mut self, forests: &Vec<Arc<MastForest>>)
        ensures
            final(self)@ == with_forests(old(self)@, forests@),
    {
        let mut i: usize = 0;
        while i < forests.len()
            invariant
                i <= forests.len(),
                self@ == with_forests(old(self)@, forests@.take(i as int)),
            decreases forests.len() - i,
        {
            self.insert(share_forest(&forests[i]));
            proof {
                let next = forests@.take(i + 1);
                assert(next.drop_last() =~= forests@.take(i as int));
                assert(next.last() == forests@[i as int]);
            }
            i += 1;
        }
        proof {
            assert(forests@.take(forests.len() as int) =~= forests@);
        }
    }

    /// Registers the account codes that a witness carries.
    pub fn load_account_codes(&mut self, witness: &TransactionWitness)
        ensures
            final(self)@ == with_forests(old(self)@, witness_code_forests(*witness)),
    {
        let forests = account_code_forests(witness);
        self.insert_all(&forests);
    }

    /// Registers the code of a witnessed transaction: the account's code, the
    /// scripts of the consumed notes and the transaction script.
    pub fn load_transaction_code(&mut self, witness: &TransactionWitness)
        ensures
            final(self)@ == with_forests(old(self)@, transaction_forests(*witness)),
    {
        let mut forests: Vec<Arc<MastForest>> = Vec::new();
        forests.push(code_forest_of(account_of(witness)));
        let mut scripts = note_script_forests(witness);
        forests.append(&mut scripts);
        match tx_script_forest(witness) {
            Some(forest) => {
                forests.push(forest);
            },
            None => {},
        }
        assert(forests@ =~= transaction_forests(*witness));
        self.insert_all(&forests);
    }
}

// ---------------------------------------------------------------------------
// What holds of every cache
// ---------------------------------------------------------------------------

/// Registering a forest a second time changes nothing: the cache resolves
/// exactly what it resolved after the first time.
pub proof fn registering_twice_is_registering_once(
    code: Map<Commitment, Arc<MastForest>>,
    forest: Arc<MastForest>,
)
    ensures
        with_forest(with_forest(code, forest), forest) == with_forest(code, forest),
{
    assert(with_forest(with_forest(code, forest), forest) =~= with_forest(code, forest));
}

/// The cache only grows: what resolved before a forest was registered still
/// resolves, and to the same forest unless the new forest defines it too.
pub proof fn registering_keeps_entries(
    code: Map<Commitment, Arc<MastForest>>,
    forest: Arc<MastForest>,
    root: Commitment,
)
    requires
        code.dom().contains(root),
    ensures
        with_forest(code, forest).dom().contains(root),
        !forest_procedure_roots(forest).contains(root) ==> with_forest(code, forest)[root]
            == code[root],
        forest_procedure_roots(forest).contains(root) ==> with_forest(code, forest)[root]
            == forest,
{
}

/// Registering any list of forests keeps every entry resolvable.
pub proof fn registering_all_keeps_entries(
    code: Map<Commitment, Arc<MastForest>>,
    forests: Seq<Arc<MastForest>>,
    root: Commitment,
)
    requires
        code.dom().contains(root),
    ensures
        with_forests(code, forests).dom().contains(root),
    decreases forests.len(),
{
    if forests.len() > 0 {
        registering_all_keeps_entries(code, forests.drop_last(), root);
    }
}

/// Registering the code of a witness keeps every entry resolvable.
pub proof fn registering_witness_code_keeps_entries(
    code: Map<Commitment, Arc<MastForest>>,
    witness: TransactionWitness,
    root: Commitment,
)
    requires
        code.dom().contains(root),
    ensures
        with_witness_code(code, witness).dom().contains(root),
{
    registering_all_keeps_entries(code, witness_code_forests(witness), root);
    registering_all_keeps_entries(
        with_forests(code, witness_code_forests(witness)),
        transaction_forests(witness),
        root,
    );
}

/// All forests that proving a witness registers, in the order of their
/// registration.
pub open spec fn witness_forests(witness: TransactionWitness) -> Seq<Arc<MastForest>> {
    witness_code_forests(witness) + transaction_forests(witness)
}

/// Some forest of the list defines a procedure with this commitment.
pub open spec fn defined_by(forests: Seq<Arc<MastForest>>, root: Commitment) -> bool {
    exists|i: int|
        0 <= i < forests.len() && forest_procedure_roots(#[trigger] forests[i]).contains(root)
}

/// Registering one list after another is registering the two as one list.
pub proof fn registering_in_two_steps(
    code: Map<Commitment, Arc<MastForest>>,
    first: Seq<Arc<MastForest>>,
    second: Seq<Arc<MastForest>>,
)
    ensures
        with_forests(with_forests(code, first), second) == with_forests(code, first + second),
    decreases second.len(),
{
    if second.len() == 0 {
        assert(first + second =~= first);
    } else {
        registering_in_two_steps(code, first, second.drop_last());
        assert((first + second).drop_last() =~= first + second.drop_last());
        assert((first + second).last() == second.last());
    }
}

/// What a list of forests defines resolves, after the list has been
/// registered, to a forest of the list that defines it, and to the same one
/// whatever the cache held before.
pub proof fn registered_code_resolves_to_its_forest(
    code: Map<Commitment, Arc<MastForest>>,
    other: Map<Commitment, Arc<MastForest>>,
    forests: Seq<Arc<MastForest>>,
    root: Commitment,
)
    requires
        defined_by(forests, root),
    ensures
        with_forests(code, forests).dom().contains(root),
        exists|j: int|
            0 <= j < forests.len() && forest_procedure_roots(#[trigger] forests[j]).contains(root)
                && with_forests(code, forests)[root] == forests[j],
        with_forests(other, forests).dom().contains(root),
        with_forests(code, forests)[root] == with_forests(other, forests)[root],
    decreases forests.len(),
{
    let n = forests.len() - 1;
    let rest = forests.drop_last();
    assert(with_forests(code, forests) == with_forest(with_forests(code, rest), forests[n]));
    assert(with_forests(other, forests) == with_forest(with_forests(other, rest), forests[n]));
    if forest_procedure_roots(forests[n]).contains(root) {
        assert(with_forests(code, forests)[root] == forests[n]);
        assert(with_forests(other, forests)[root] == forests[n]);
    } else {
        let i = choose|i: int|
            0 <= i < forests.len() && forest_procedure_roots(#[trigger] forests[i]).contains(root);
        assert(rest[i] == forests[i]);
        assert(defined_by(rest, root));
        registered_code_resolves_to_its_forest(code, other, rest, root);
        let j = choose|j: int|
            0 <= j < rest.len() && forest_procedure_roots(#[trigger] rest[j]).contains(root)
                && with_forests(code, rest)[root] == rest[j];
        assert(forests[j] == rest[j]);
        assert(with_forests(code, forests)[root] == with_forests(code, rest)[root]);
        assert(with_forests(other, forests)[root] == with_forests(other, rest)[root]);
    }
}

/// What a list of forests does not define resolves, after the list has been
/// registered, to the forest it resolved to before.
pub proof fn other_code_stays(
    code: Map<Commitment, Arc<MastForest>>,
    forests: Seq<Arc<MastForest>>,
    root: Commitment,
)
    requires
        code.dom().contains(root),
        !defined_by(forests, root),
    ensures
        with_forests(code, forests).dom().contains(root),
        with_forests(code, forests)[root] == code[root],
    decreases forests.len(),
{
    if forests.len() > 0 {
        let n = forests.len() - 1;
        let rest = forests.drop_last();
        assert(!forest_procedure_roots(forests[n]).contains(root));
        assert(!defined_by(rest, root)) by {
            if defined_by(rest, root) {
                let i = choose|i: int|
                    0 <= i < rest.len() && forest_procedure_roots(#[trigger] rest[i]).contains(
                        root,
                    );
                assert(forests[i] == rest[i]);
            }
        }
        other_code_stays(code, rest, root);
    }
}

/// After a witness has been proven, with whatever result, the code that the
/// witness defines resolves to a forest of the witness that defines it, and
/// to the same forest as on any other cache: what a call finds of its own
/// code does not depend on the calls before it. All other code resolves as
/// it did before the call.
pub proof fn witness_code_does_not_depend_on_history(
    code: Map<Commitment, Arc<MastForest>>,
    other: Map<Commitment, Arc<MastForest>>,
    witness: TransactionWitness,
    root: Commitment,
)
    ensures
        defined_by(witness_forests(witness), root) ==> {
            &&& with_witness_code(code, witness).dom().contains(root)
            &&& with_witness_code(other, witness).dom().contains(root)
            &&& with_witness_code(code, witness)[root] == with_witness_code(other, witness)[root]
            &&& exists|j: int|
                0 <= j < witness_forests(witness).len() && forest_procedure_roots(
                    #[trigger] witness_forests(witness)[j],
                ).contains(root) && with_witness_code(code, witness)[root] == witness_forests(
                    witness,
                )[j]
        },
        !defined_by(witness_forests(witness), root) && code.dom().contains(root) ==> {
            &&& with_witness_code(code, witness).dom().contains(root)
            &&& with_witness_code(code, witness)[root] == code[root]
        },
{
    let forests = witness_forests(witness);
    registering_in_two_steps(code, witness_code_forests(witness), transaction_forests(witness));
    registering_in_two_steps(other, witness_code_forests(witness), transaction_forests(witness));
    if defined_by(forests, root) {
        registered_code_resolves_to_its_forest(code, other, forests, root);
    } else if code.dom().contains(root) {
        other_code_stays(code, forests, root);
    }
}

/// Every procedure that a registered forest defines resolves to that forest.
pub proof fn registered_code_resolves(
    code: Map<Commitment, Arc<MastForest>>,
    forest: Arc<MastForest>,
    root: Commitment,
)
    requires
        forest_procedure_roots(forest).contains(root),
    ensures
        with_forest(code, forest).dom().contains(root),
        with_forest(code, forest)[root] == forest,
{
}

} // verus!
