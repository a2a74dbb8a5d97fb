//! The keys that are held down.

use crate::key::{KeyView, KeyboardKey};
use vstd::prelude::*;

verus! {

/// The set of keys that are down at the moment: a key joins it when it is
/// pressed and leaves it when it is released.
#[derive(Debug)]
pub struct HeldKeys {
    keys: Vec<KeyboardKey>,
}

impl View for HeldKeys {
    type V = Set<KeyView>;

    closed spec fn view(&self) -> Set<KeyView> {
        Set::new(|key: KeyView| exists|i: int| 0 <= i < self.keys@.len() && self.keys@[i]@ == key)
    }
}

impl HeldKeys {
    /// No key is held.
    pub fn new() -> (held: HeldKeys)
        ensures
            held@ == Set::<KeyView>::empty(),
    {
        let held = HeldKeys { keys: Vec::new() };
        assert(held@ =~= Set::<KeyView>::empty());
        held
    }

    /// Whether the given key is held.
    pub fn contains(&self, key: &KeyboardKey) -> (held: bool)
        ensures
            held == self@.contains(key@),
    {
        let mut i: usize = 0;
        while i < self.keys.len()
            invariant
                i <= self.keys@.len(),
                forall|j: int| 0 <= j < i ==> self.keys@[j]@ != key@,
            decreases self.keys@.len() - i,
        {
            if self.keys[i] == *key {
                return true;
            }
            i = i + 1;
        }
        false
    }

    /// Takes the given key into the set. Returns whether it was not held
    /// before.
    pub fn insert(&mut self, key: KeyboardKey) -> (fresh: bool)
        ensures
            final(self)@ == old(self)@.insert(key@),
            fresh == !old(self)@.contains(key@),
    {
        if self.contains(&key) {
            assert(self@ =~= self@.insert(key@));
            false
        } else {
            self.keys.push(key);
            assert(self@ =~= old(self)@.insert(key@)) by {
                assert forall|k: KeyView| old(self)@.insert(key@).contains(k) implies self@.contains(
                    k,
                ) by {
                    if k == key@ {
                        assert(self.keys@[old(self).keys@.len() as int]@ == k);
                    } else {
                        let i = choose|i: int|
                            0 <= i < old(self).keys@.len() && old(self).keys@[i]@ == k;
                        assert(self.keys@[i]@ == k);
                    }
                }
                assert forall|k: KeyView| self@.contains(k) implies old(self)@.insert(
                    key@,
                ).contains(k) by {
                    let i = choose|i: int| 0 <= i < self.keys@.len() && self.keys@[i]@ == k;
                    if i < old(self).keys@.len() {
                        assert(old(self).keys@[i]@ == k);
                    }
                }
            }
            true
        }
    }

    /// Takes the given key out of the set. Returns whether it was held.
    pub fn remove(&mut self, key: &KeyboardKey) -> (held: bool)
        ensures
            final(self)@ == old(self)@.remove(key@),
            held == old(self)@.contains(key@),
    {
        let mut held = false;
        let mut i: usize = 0;
        while i < self.keys.len()
            invariant
                i <= self.keys@.len(),
                forall|j: int| 0 <= j < i ==> self.keys@[j]@ != key@,
                self@.remove(key@) == old(self)@.remove(key@),
                held ==> old(self)@.contains(key@),
                !held ==> self@ == old(self)@,
            decreases self.keys@.len() - i,
        {
            if self.keys[i] == *key {
                let ghost before = *self;
                assert(before@.contains(key@));
                self.keys.remove(i);
                held = true;
                assert(self@.remove(key@) =~= before@.remove(key@)) by {
                    assert forall|k: KeyView| before@.remove(key@).contains(k) implies self@.remove(
                        key@,
                    ).contains(k) by {
                        let j = choose|j: int| 0 <= j < before.keys@.len() && before.keys@[j]@ == k;
                        if j < i {
                            assert(self.keys@[j]@ == k);
                        } else {
                            assert(self.keys@[j - 1]@ == k);
                        }
                    }
                    assert forall|k: KeyView| self@.remove(key@).contains(k) implies before@.remove(
                        key@,
                    ).contains(k) by {
                        let j = choose|j: int| 0 <= j < self.keys@.len() && self.keys@[j]@ == k;
                        if j < i {
                            assert(before.keys@[j]@ == k);
                        } else {
                            assert(before.keys@[j + 1]@ == k);
                        }
                    }
                }
            } else {
                i = i + 1;
            }
        }
        assert(self@ =~= old(self)@.remove(key@)) by {
            assert(!self@.contains(key@));
            assert(self@ =~= self@.remove(key@));
        }
        held
    }
}

} // verus!
