use vstd::prelude::*;

use crate::error::EngineError;

verus! {

/// A particle as the kernel tracks it: an identity, a group, and the physical
/// state `S` that the host integrates.
pub struct Particle<S> {
    pub id: u32,
    pub group: u32,
    pub state: S,
}

impl<S> Particle<S> {
    /// A particle with id 0 in group 0; a store assigns the id on insertion.
    pub fn new(state: S) -> (p: Particle<S>)
        ensures
            p.id == 0,
            p.group == 0,
            p.state == state,
    {
        Particle { id: 0, group: 0, state }
    }

    pub fn id(self, id: u32) -> (p: Particle<S>)
        ensures
            p.id == id,
            p.group == self.group,
            p.state == self.state,
    {
        Particle { id, group: self.group, state: self.state }
    }

    pub fn group(self, group: u32) -> (p: Particle<S>)
        ensures
            p.id == self.id,
            p.group == group,
            p.state == self.state,
    {
        Particle { id: self.id, group, state: self.state }
    }
}

/// A copyable handle to a particle: its id, and the slot where it was last
/// seen, kept as a lookup hint.
#[derive(Clone, Copy, Debug, PartialEq, Eq, Structural)]
pub struct ParticleReference {
    pub id: u32,
    pub index: usize,
}

/// Some slot of `list` holds a particle with this id.
pub open spec fn holds_id<S>(list: Seq<Particle<S>>, id: u32) -> bool {
    exists|k: int| 0 <= k < list.len() && #[trigger] list[k].id == id
}

/// The cached index of `r` still points at a particle with its id.
pub open spec fn cache_hit<S>(r: ParticleReference, list: Seq<Particle<S>>) -> bool {
    r.index < list.len() && list[r.index as int].id == r.id
}

/// `k` is the slot that `r` resolves to in `list`: the cached index when it
/// still holds the id, otherwise the first slot that holds it.
pub open spec fn resolves_to<S>(r: ParticleReference, list: Seq<Particle<S>>, k: int) -> bool {
    &&& 0 <= k < list.len()
    &&& list[k].id == r.id
    &&& if cache_hit(r, list) {
        k == r.index
    } else {
        forall|j: int| 0 <= j < k ==> #[trigger] list[j].id != r.id
    }
}

/// No two slots of `list` hold the same id.
pub open spec fn unique_ids<S>(list: Seq<Particle<S>>) -> bool {
    forall|i: int, j: int|
        0 <= i < list.len() && 0 <= j < list.len() && i != j ==> #[trigger] list[i].id
            != #[trigger] list[j].id
}

impl ParticleReference {
    pub fn new(id: u32, index: usize) -> (r: ParticleReference)
        ensures
            r.id == id,
            r.index == index,
    {
        ParticleReference { id, index }
    }

    /// Finds the slot of the referenced particle, checking the cached index
    /// first and scanning the list when it no longer matches; the cache is
    /// refreshed with the slot found.
    pub fn resolve<S>(&mut self, list: &[Particle<S>]) -> (res: Result<usize, EngineError>)
        ensures
            final(self).id == old(self).id,
            match res {
                Ok(k) => resolves_to(*old(self), list@, k as int) && final(self).index == k,
                Err(e) => e == EngineError::UnknownEntity && !holds_id(list@, old(self).id)
                    && final(self).index == old(self).index,
            },
    {
        if self.index < list.len() && list[self.index].id == self.id {
            return Ok(self.index);
        }
        let mut k: usize = 0;
        while k < list.len()
            invariant
                k <= list@.len(),
                *self == *old(self),
                !cache_hit(*self, list@),
                forall|j: int| 0 <= j < k ==> #[trigger] list@[j].id != self.id,
            decreases list@.len() - k,
        {
            if list[k].id == self.id {
                self.index = k;
                return Ok(k);
            }
            k = k + 1;
        }
        Err(EngineError::UnknownEntity)
    }

    /// The referenced particle, found as `resolve` finds it; the cached
    /// index is refreshed with the slot found.
    pub fn get<'a, S>(&mut self, list: &'a [Particle<S>]) -> (res: Result<&'a Particle<S>, EngineError>)
        ensures
            final(self).id == old(self).id,
            match res {
                Ok(p) => exists|k: int|
                    resolves_to(*old(self), list@, k) && *p == list@[k] && final(self).index == k,
                Err(e) => e == EngineError::UnknownEntity && !holds_id(list@, old(self).id)
                    && final(self).index == old(self).index,
            },
    {
        match self.resolve(list) {
            Ok(k) => Ok(&list[k]),
            Err(e) => Err(e),
        }
    }

    /// Mutable access to the referenced particle, found as `resolve` finds
    /// it; the cached index is refreshed with the slot found.
    pub fn get_mut<'a, S>(&mut self, list: &'a mut Vec<Particle<S>>) -> (res: Result<&'a mut Particle<S>, EngineError>)
        ensures
            final(self).id == old(self).id,
            match res {
                Ok(p) => exists|k: int|
                    resolves_to(*old(self), old(list)@, k) && *p == old(list)@[k] && final(list)@
                        == old(list)@.update(k, *final(p)) && final(self).index == k,
                Err(e) => e == EngineError::UnknownEntity && !holds_id(old(list)@, old(self).id)
                    && final(list)@ == old(list)@ && final(self).index == old(self).index,
            },
    {
        match self.resolve(list.as_slice()) {
            Ok(k) => Ok(&mut list[k]),
            Err(e) => Err(e),
        }
    }
}

/// Reordering the particles of a list, whose ids are unique, does not change
/// which particle a reference designates: wherever the particle it resolved to
/// has moved, the reference still finds an id match, and every slot it can
/// resolve to holds that same particle.
pub proof fn lemma_reference_survives_shuffle<S>(
    r: ParticleReference,
    before: Seq<Particle<S>>,
    after: Seq<Particle<S>>,
    k: int,
)
    requires
        after.to_multiset() == before.to_multiset(),
        unique_ids(after),
        resolves_to(r, before, k),
    ensures
        holds_id(after, r.id),
        forall|j: int| resolves_to(r, after, j) ==> after[j] == before[k],
{
    broadcast use vstd::seq_lib::group_to_multiset_ensures;

    assert(before.contains(before[k]));
    assert(before.to_multiset().count(before[k]) > 0);
    assert(after.to_multiset().count(before[k]) > 0);
    assert(after.contains(before[k]));
    let m = choose|m: int| 0 <= m < after.len() && after[m] == before[k];
    assert(after[m].id == r.id);
    assert forall|j: int| resolves_to(r, after, j) implies after[j] == before[k] by {
        if j != m {
            assert(after[j].id != after[m].id);
        }
    }
}

} // verus!
