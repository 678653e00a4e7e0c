//! The components that are up at the moment.

use crate::message::Id;
use vstd::prelude::*;

verus! {

/// The set of components that are mounted.
#[derive(Debug)]
pub struct Popups {
    mounted: Vec<Id>,
}

impl View for Popups {
    type V = Set<Id>;

    closed spec fn view(&self) -> Set<Id> {
        self.mounted@.to_set()
    }
}

impl Popups {
    /// Nothing is mounted.
    pub fn new() -> (popups: Popups)
        ensures
            popups@ == Set::<Id>::empty(),
    {
        let popups = Popups { mounted: Vec::new() };
        assert(popups@ =~= Set::<Id>::empty());
        popups
    }

    /// Whether the component is mounted.
    pub fn is_mounted(&self, id: Id) -> (mounted: bool)
        ensures
            mounted == self@.contains(id),
    {
        let mut i: usize = 0;
        while i < self.mounted.len()
            invariant
                i <= self.mounted.len(),
                forall|j: int| 0 <= j < i ==> self.mounted[j] != id,
            decreases self.mounted.len() - i,
        {
            if self.mounted[i] == id {
                assert(self.mounted@.contains(id));
                return true;
            }
            i += 1;
        }
        false
    }

    /// Mounts the component.
    pub fn mount(&mut self, id: Id)
        ensures
            final(self)@ == old(self)@.insert(id),
    {
        let ghost before = self.mounted@;
        if !self.is_mounted(id) {
            self.mounted.push(id);
            assert forall|x: Id| self.mounted@.contains(x) <==> before.contains(x) || x == id by {
                if before.contains(x) {
                    let k = choose|k: int| 0 <= k < before.len() && before[k] == x;
                    assert(self.mounted@[k] == x);
                }
                if x == id {
                    assert(self.mounted@[before.len() as int] == x);
                }
            }
        }
        assert(self@ =~= before.to_set().insert(id));
    }

    /// Takes the component down.
    pub fn umount(&mut self, id: Id)
        ensures
            final(self)@ == old(self)@.remove(id),
    {
        let ghost before = self.mounted@;
        let mut kept: Vec<Id> = Vec::new();
        let mut i: usize = 0;
        while i < self.mounted.len()
            invariant
                i <= self.mounted.len(),
                self.mounted@ == before,
                forall|x: Id|
                    kept@.contains(x) <==> x != id && exists|k: int|
                        0 <= k < i && #[trigger] before[k] == x,
            decreases self.mounted.len() - i,
        {
            let ghost was = kept@;
            let here = self.mounted[i];
            if here != id {
                kept.push(here);
            }
            assert forall|x: Id|
                kept@.contains(x) <==> x != id && exists|k: int|
                    0 <= k < i + 1 && #[trigger] before[k] == x by {
                if kept@.contains(x) {
                    let j = choose|j: int| 0 <= j < kept@.len() && kept@[j] == x;
                    if j < was.len() {
                        assert(was[j] == x);
                        assert(was.contains(x));
                        let k = choose|k: int| 0 <= k < i && #[trigger] before[k] == x;
                        assert(0 <= k < i + 1 && before[k] == x);
                    } else {
                        assert(before[i as int] == x);
                    }
                }
                if x != id && exists|k: int| 0 <= k < i + 1 && #[trigger] before[k] == x {
                    let k = choose|k: int| 0 <= k < i + 1 && #[trigger] before[k] == x;
                    if k < i {
                        assert(was.contains(x));
                        let j = choose|j: int| 0 <= j < was.len() && was[j] == x;
                        assert(kept@[j] == x);
                    } else {
                        assert(kept@[kept@.len() - 1] == x);
                    }
                }
            }
            i += 1;
        }
        self.mounted = kept;
        assert forall|x: Id| self@.contains(x) <==> before.to_set().remove(id).contains(x) by {
            if before.contains(x) {
                let k = choose|k: int| 0 <= k < before.len() && before[k] == x;
                assert(before[k] == x);
            }
        }
        assert(self@ =~= before.to_set().remove(id));
    }
}

} // verus!
