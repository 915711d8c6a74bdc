//! Dispatch registry: process-wide lookup from opaque context tokens to the
//! active policy/driver pair they were issued for.
//!
//! The native side accepts only plain function pointers for callbacks, so a
//! callback cannot capture which driver it serves; instead an opaque token is
//! handed to the native side at activation and echoed back on every
//! callback. The registry is a generation-checked handle table: a token is a
//! slot index plus the generation the slot had when the entry was installed.
//! Deactivating a slot advances its generation, so a token left over from an
//! earlier activation can never resolve to a later entry: resolution either
//! returns the exact entry the token was issued for or fails, never stale
//! data. The table holds any number of concurrently active entries, one per
//! token.

use vstd::prelude::*;

verus! {

/// The opaque context value that crosses the native boundary in place of a
/// pointer, and is echoed back on every callback.
#[derive(Clone, Copy, Debug, PartialEq, Eq, Structural)]
pub struct Token {
    pub index: usize,
    pub generation: u64,
}

/// Resolution failure: the token has no active entry. This is the
/// deterministic answer for a fresh registry, a deactivated token, and a
/// token from an earlier generation of a reused slot alike.
#[derive(Clone, Copy, Debug, PartialEq, Eq, Structural)]
pub enum RegistryError {
    Inactive,
}

struct Slot<T> {
    generation: u64,
    entry: Option<T>,
}

/// The handle table. `T` is whatever the embedding associates with one
/// active driver: typically the pair of references the callback adapters
/// need to recover.
pub struct Registry<T> {
    slots: Vec<Slot<T>>,
}

impl<T> Registry<T> {
    /// Whether `t` currently resolves to an active entry.
    pub closed spec fn live(self, t: Token) -> bool {
        &&& t.index < self.slots@.len()
        &&& self.slots@[t.index as int].generation == t.generation
        &&& self.slots@[t.index as int].entry is Some
    }

    /// The entry `t` resolves to, where it is live.
    pub closed spec fn entry_of(self, t: Token) -> T
        recommends
            self.live(t),
    {
        self.slots@[t.index as int].entry->Some_0
    }

    /// An empty registry: no token is live.
    pub fn new() -> (r: Registry<T>)
        ensures
            forall|t: Token| !r.live(t),
    {
        Registry { slots: Vec::new() }
    }

    /// Install an entry and return the token under which it resolves. Every
    /// other token is left exactly as it was, so a token from an earlier
    /// activation of the same slot stays dead.
    pub fn activate(&mut self, entry: T) -> (t: Token)
        ensures
            final(self).live(t),
            final(self).entry_of(t) == entry,
            !old(self).live(t),
            forall|u: Token| u != t ==> final(self).live(u) == old(self).live(u),
            forall|u: Token|
                u != t && old(self).live(u) ==> final(self).entry_of(u) == old(self).entry_of(u),
    {
        let n = self.slots.len();
        let mut idx: usize = 0;
        while idx < n
            invariant
                idx <= n,
                n == self.slots@.len(),
                *self == *old(self),
            decreases n - idx,
        {
            if self.slots[idx].entry.is_none() && self.slots[idx].generation < u64::MAX {
                let g = self.slots[idx].generation;
                self.slots.set(idx, Slot { generation: g, entry: Some(entry) });
                let t = Token { index: idx, generation: g };
                proof {
                    assert(final(self).live(t));
                    assert forall|u: Token| u != t implies final(self).live(u) == old(
                        self,
                    ).live(u) by {
                        if u.index == t.index {
                            assert(!old(self).live(u));
                            assert(!final(self).live(u));
                        }
                    }
                }
                return t;
            }
            idx = idx + 1;
        }
        self.slots.push(Slot { generation: 0, entry: Some(entry) });
        let t = Token { index: n, generation: 0 };
        proof {
            assert(final(self).live(t));
            assert forall|u: Token| u != t implies final(self).live(u) == old(self).live(u) by {
                if u.index == t.index {
                    assert(!old(self).live(u));
                    assert(!final(self).live(u));
                }
            }
        }
        t
    }

    /// The active entry `t` resolves to. Fails deterministically, with no
    /// entry returned, where no entry is active under `t`.
    pub fn resolve(&self, t: Token) -> (r: Result<&T, RegistryError>)
        ensures
            r is Ok <==> self.live(t),
            r matches Ok(e) ==> *e == self.entry_of(t),
            r is Err ==> r == Err::<&T, RegistryError>(RegistryError::Inactive),
    {
        if t.index < self.slots.len() {
            let slot = &self.slots[t.index];
            if slot.generation == t.generation {
                match &slot.entry {
                    Some(e) => Ok(e),
                    None => Err(RegistryError::Inactive),
                }
            } else {
                Err(RegistryError::Inactive)
            }
        } else {
            Err(RegistryError::Inactive)
        }
    }

    /// Clear the entry `t` resolves to. After success `t` is dead, and stays
    /// dead even if the slot is later reused, since the slot's generation
    /// advances. Fails, changing nothing, where `t` is not live.
    pub fn deactivate(&mut self, t: Token) -> (r: Result<(), RegistryError>)
        ensures
            r is Ok <==> old(self).live(t),
            !final(self).live(t),
            !old(self).live(t) ==> *final(self) == *old(self),
            forall|u: Token| u != t ==> final(self).live(u) == old(self).live(u),
            forall|u: Token|
                u != t && old(self).live(u) ==> final(self).entry_of(u) == old(self).entry_of(u),
            r is Err ==> r == Err::<(), RegistryError>(RegistryError::Inactive),
    {
        if t.index < self.slots.len() {
            let slot = &self.slots[t.index];
            if slot.generation == t.generation && slot.entry.is_some() {
                let g = slot.generation;
                let g2 = if g < u64::MAX {
                    g + 1
                } else {
                    g
                };
                self.slots.set(t.index, Slot { generation: g2, entry: None });
                proof {
                    assert forall|u: Token| u != t implies final(self).live(u) == old(
                        self,
                    ).live(u) by {
                        if u.index == t.index {
                            assert(!old(self).live(u));
                            assert(!final(self).live(u));
                        }
                    }
                }
                Ok(())
            } else {
                Err(RegistryError::Inactive)
            }
        } else {
            Err(RegistryError::Inactive)
        }
    }
}

} // verus!
