//! A map from code hashes to contract code, filled as accounts are read.

use vstd::prelude::*;
use revm::primitives::Bytecode;
use crate::bytecode::bytecode_clone;
use crate::primitives::B256;

verus! {

/// Contract code by code hash, kept as a list of (hash, code) pairs in place of a
/// hash map. No hash occurs twice among the entries.
pub struct BytecodeCache {
    entries: Vec<(B256, Bytecode)>,
}

/// The code that `cache` holds for `key`, if any.
pub open spec fn cached(cache: Map<B256, Bytecode>, key: B256) -> Option<Bytecode> {
    if cache.dom().contains(key) {
        Some(cache[key])
    } else {
        None
    }
}

impl BytecodeCache {
    #[verifier::type_invariant]
    spec fn keys_unique(self) -> bool {
        forall|i: int, j: int|
            0 <= i < j < self.entries@.len() ==> #[trigger] self.entries@[i].0 != #[trigger] self.entries@[j].0
    }

    spec fn holds_at(self, key: B256, i: int) -> bool {
        0 <= i < self.entries@.len() && self.entries@[i].0 == key
    }

    /// The hashes that the cache holds code for, each with its code.
    pub closed spec fn contents(self) -> Map<B256, Bytecode> {
        Map::new(
            |k: B256| exists|i: int| self.holds_at(k, i),
            |k: B256| self.entries@[choose|i: int| self.holds_at(k, i)].1,
        )
    }

    /// An empty cache.
    pub fn new() -> (c: Self)
        ensures
            c.contents() == Map::<B256, Bytecode>::empty(),
    {
        let c = BytecodeCache { entries: Vec::new() };
        assert(c.contents() =~= Map::<B256, Bytecode>::empty());
        c
    }

    /// The position of `key` among the entries, if the cache holds it.
    fn position(&self, key: &B256) -> (r: Option<usize>)
        ensures
            match r {
                Some(i) => self.holds_at(*key, i as int),
                None => forall|i: int| !self.holds_at(*key, i),
            },
    {
        let mut i: usize = 0;
        while i < self.entries.len()
            invariant
                0 <= i <= self.entries@.len(),
                forall|j: int| 0 <= j < i ==> !self.holds_at(*key, j),
            decreases self.entries@.len() - i,
        {
            if self.entries[i].0.same_as(key) {
                return Some(i);
            }
            i = i + 1;
        }
        None
    }

    /// The code that the cache holds for `key`, if any.
    pub fn get(&self, key: &B256) -> (r: Option<Bytecode>)
        ensures
            r == cached(self.contents(), *key),
    {
        proof {
            use_type_invariant(self);
        }
        match self.position(key) {
            Some(i) => {
                proof {
                    let j = choose|j: int| self.holds_at(*key, j);
                    assert(self.holds_at(*key, j));
                    assert(j == i);
                }
                Some(bytecode_clone(&self.entries[i].1))
            },
            None => None,
        }
    }

    /// When `after` holds `value` under `key` at position `at`, and every entry under
    /// another key at the same position as `before` does, `after` holds what `before`
    /// holds with `value` stored under `key`.
    proof fn lemma_contents_after_store(before: Self, after: Self, key: B256, value: Bytecode, at: int)
        requires
            before.keys_unique(),
            after.keys_unique(),
            after.holds_at(key, at),
            after.entries@[at].1 == value,
            forall|k: B256, m: int|
                #![trigger after.holds_at(k, m)]
                #![trigger before.holds_at(k, m)]
                k != key ==> (after.holds_at(k, m) <==> before.holds_at(k, m)),
            forall|m: int|
                0 <= m < after.entries@.len() && after.entries@[m].0 != key
                    ==> #[trigger] after.entries@[m] == before.entries@[m],
        ensures
            after.contents() == before.contents().insert(key, value),
    {
        assert forall|k: B256| #[trigger] after.contents().dom().contains(k) && k != key
            implies after.contents()[k] == before.contents()[k] by {
            let a = choose|m: int| after.holds_at(k, m);
            let b = choose|m: int| before.holds_at(k, m);
            assert(after.holds_at(k, a));
            assert(before.holds_at(k, a));
            assert(before.holds_at(k, b));
            assert(a == b);
        }
        let a = choose|m: int| after.holds_at(key, m);
        assert(after.holds_at(key, a));
        assert(a == at);
        assert(after.contents() =~= before.contents().insert(key, value));
    }

    /// Stores `value` as the code for `key`, in place of any code held for it before.
    pub fn insert(&mut self, key: B256, value: Bytecode)
        ensures
            final(self).contents() == old(self).contents().insert(key, value),
    {
        proof {
            use_type_invariant(&*self);
        }
        let ghost before = *self;
        let found = self.position(&key);
        let mut entries: Vec<(B256, Bytecode)> = Vec::new();
        std::mem::swap(&mut entries, &mut self.entries);
        match found {
            Some(i) => {
                entries.set(i, (key, value));
                self.entries = entries;
                proof {
                    use_type_invariant(&*self);
                    Self::lemma_contents_after_store(before, *self, key, value, i as int);
                }
            },
            None => {
                entries.push((key, value));
                let ghost n = before.entries@.len() as int;
                proof {
                    assert forall|i: int, j: int| 0 <= i < j < entries@.len()
                        implies #[trigger] entries@[i].0 != #[trigger] entries@[j].0 by {
                        if j == n {
                            assert(!before.holds_at(key, i));
                        } else {
                            assert(before.entries@[i].0 != before.entries@[j].0);
                        }
                    }
                }
                self.entries = entries;
                proof {
                    use_type_invariant(&*self);
                    assert forall|k: B256, m: int| #[trigger] before.holds_at(k, m)
                        implies self.holds_at(k, m) by {}
                    Self::lemma_contents_after_store(before, *self, key, value, n);
                }
            },
        }
    }
}

} // verus!
