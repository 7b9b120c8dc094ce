use vstd::prelude::*;

use crate::error::EngineError;
use crate::particle::{Particle, ParticleReference, holds_id, resolves_to, unique_ids};

verus! {

/// `p` with its id replaced by `id`.
pub open spec fn stamped<S>(p: Particle<S>, id: u32) -> Particle<S> {
    Particle { id, group: p.group, state: p.state }
}

/// The ids along `list` strictly increase.
pub open spec fn ids_increasing<S>(list: Seq<Particle<S>>) -> bool {
    forall|i: int, j: int| 0 <= i < j < list.len() ==> #[trigger] list[i].id < #[trigger] list[j].id
}

/// The reference that names slot `k` of `list`.
pub open spec fn reference_at<S>(list: Seq<Particle<S>>, k: int) -> ParticleReference {
    ParticleReference { id: list[k].id, index: k as usize }
}

/// References to the particles of `list` that belong to `group`, in slot order.
pub open spec fn group_refs<S>(list: Seq<Particle<S>>, group: u32) -> Seq<ParticleReference>
    decreases list.len(),
{
    if list.len() == 0 {
        Seq::empty()
    } else {
        let k = list.len() - 1;
        let earlier = group_refs(list.drop_last(), group);
        if list[k].group == group {
            earlier.push(reference_at(list, k))
        } else {
            earlier
        }
    }
}

/// `list` with each particle stamped with consecutive ids from `first`.
pub open spec fn stamped_from<S>(list: Seq<Particle<S>>, first: int) -> Seq<Particle<S>> {
    Seq::new(list.len(), |i: int| stamped(list[i], (first + i) as u32))
}

/// A reference to a slot keeps designating the same particle as the array
/// grows: appending never moves a particle, so the cached index still matches.
pub proof fn lemma_reference_survives_growth<S>(
    before: Seq<Particle<S>>,
    added: Seq<Particle<S>>,
    k: int,
)
    requires
        0 <= k < before.len() <= usize::MAX,
    ensures
        resolves_to(reference_at(before, k), before + added, k),
        (before + added)[k] == before[k],
{
}

/// The particle array of a system. Particles are only ever appended, each
/// under a fresh id drawn from a counter, so ids increase along the array.
pub struct ParticleStore<S> {
    particles: Vec<Particle<S>>,
    id_counter: u32,
}

impl<S> View for ParticleStore<S> {
    type V = Seq<Particle<S>>;

    closed spec fn view(&self) -> Seq<Particle<S>> {
        self.particles@
    }
}

impl<S> ParticleStore<S> {
    /// The id the next added particle receives.
    pub closed spec fn next_id(&self) -> u32 {
        self.id_counter
    }

    pub open spec fn wf(&self) -> bool {
        &&& self@.len() <= usize::MAX
        &&& self@.len() <= self.next_id()
        &&& ids_increasing(self@)
        &&& forall|k: int| 0 <= k < self@.len() ==> #[trigger] self@[k].id < self.next_id()
    }

    pub fn new() -> (s: ParticleStore<S>)
        ensures
            s.wf(),
            s@ == Seq::<Particle<S>>::empty(),
            s.next_id() == 0,
    {
        ParticleStore { particles: Vec::new(), id_counter: 0 }
    }

    pub fn len(&self) -> (n: usize)
        ensures
            n == self@.len(),
    {
        self.particles.len()
    }

    /// The id the next added particle receives.
    pub fn next_particle_id(&self) -> (id: u32)
        ensures
            id == self.next_id(),
    {
        self.id_counter
    }

    /// The particles in slot order, for reading.
    pub fn particles(&self) -> (list: &[Particle<S>])
        ensures
            list@ == self@,
    {
        self.particles.as_slice()
    }

    /// The ids of a well-formed store are unique.
    pub proof fn lemma_unique_ids(&self)
        requires
            self.wf(),
        ensures
            unique_ids(self@),
    {
        assert forall|i: int, j: int|
            0 <= i < self@.len() && 0 <= j < self@.len() && i != j implies #[trigger] self@[i].id
            != #[trigger] self@[j].id by {
            if i < j {
                assert(self@[i].id < self@[j].id);
            } else {
                assert(self@[j].id < self@[i].id);
            }
        }
    }

    /// Appends `particle` under the next id and returns a reference to it.
    pub fn add_particle(&mut self, particle: Particle<S>) -> (r: ParticleReference)
        requires
            old(self).wf(),
            old(self).next_id() < u32::MAX,
        ensures
            final(self).wf(),
            final(self)@ == old(self)@.push(stamped(particle, old(self).next_id())),
            final(self).next_id() == old(self).next_id() + 1,
            r == (ParticleReference { id: old(self).next_id(), index: old(self)@.len() as usize }),
    {
        let id = self.id_counter;
        let index = self.particles.len();
        self.particles.push(particle.id(id));
        self.id_counter = id + 1;
        ParticleReference::new(id, index)
    }

    /// Appends the particles in order, each under the next id, and returns
    /// their references in the same order.
    pub fn add_particles(&mut self, particles: Vec<Particle<S>>) -> (refs: Vec<ParticleReference>)
        requires
            old(self).wf(),
            old(self).next_id() + particles@.len() <= u32::MAX,
        ensures
            final(self).wf(),
            final(self)@ == old(self)@ + stamped_from(particles@, old(self).next_id() as int),
            final(self).next_id() == old(self).next_id() + particles@.len(),
            refs@.len() == particles@.len(),
            forall|i: int|
                0 <= i < refs@.len() ==> #[trigger] refs@[i] == (ParticleReference {
                    id: (old(self).next_id() + i) as u32,
                    index: (old(self)@.len() + i) as usize,
                }),
    {
        let ghost first = self.id_counter as int;
        let ghost start = self@;
        let ghost given = particles@;
        let mut refs: Vec<ParticleReference> = Vec::new();
        for particle in it: particles
            invariant
                it.seq() == given,
                self.wf(),
                first + given.len() <= u32::MAX,
                self.next_id() == first + it.index(),
                self@ == start + stamped_from(given.take(it.index() as int), first),
                refs@.len() == it.index(),
                forall|i: int|
                    0 <= i < refs@.len() ==> #[trigger] refs@[i] == (ParticleReference {
                        id: (first + i) as u32,
                        index: (start.len() + i) as usize,
                    }),
        {
            let ghost done = it.index() as int;
            let r = self.add_particle(particle);
            refs.push(r);
            assert(given.take(done + 1) == given.take(done).push(given[done]));
            assert(self@ =~= start + stamped_from(given.take(done + 1), first));
        }
        assert(given.take(given.len() as int) =~= given);
        refs
    }

    /// References to every particle, in slot order.
    pub fn all_particles(&self) -> (refs: Vec<ParticleReference>)
        ensures
            refs@.len() == self@.len(),
            forall|k: int| 0 <= k < refs@.len() ==> #[trigger] refs@[k] == reference_at(self@, k),
    {
        let mut refs: Vec<ParticleReference> = Vec::new();
        let mut k: usize = 0;
        while k < self.particles.len()
            invariant
                k <= self@.len(),
                refs@.len() == k,
                forall|j: int| 0 <= j < k ==> #[trigger] refs@[j] == reference_at(self@, j),
            decreases self@.len() - k,
        {
            refs.push(ParticleReference::new(self.particles[k].id, k));
            k = k + 1;
        }
        refs
    }

    /// References to the particles of `group`, in slot order.
    pub fn particles_in_group(&self, group: u32) -> (refs: Vec<ParticleReference>)
        ensures
            refs@ == group_refs(self@, group),
    {
        let mut refs: Vec<ParticleReference> = Vec::new();
        let mut k: usize = 0;
        while k < self.particles.len()
            invariant
                k <= self@.len(),
                refs@ == group_refs(self@.take(k as int), group),
            decreases self@.len() - k,
        {
            let ghost seen = self@.take(k as int + 1);
            assert(seen.drop_last() =~= self@.take(k as int));
            if self.particles[k].group == group {
                refs.push(ParticleReference::new(self.particles[k].id, k));
            }
            k = k + 1;
        }
        assert(self@.take(k as int) =~= self@);
        refs
    }

    /// The particle that `r` designates, found as `ParticleReference::get`
    /// finds it; the cached index of `r` is refreshed with the slot found.
    pub fn get(&self, r: &mut ParticleReference) -> (res: Result<&Particle<S>, EngineError>)
        ensures
            final(r).id == old(r).id,
            match res {
                Ok(p) => exists|k: int|
                    resolves_to(*old(r), self@, k) && *p == self@[k] && final(r).index == k,
                Err(e) => e == EngineError::UnknownEntity && !holds_id(self@, old(r).id)
                    && final(r).index == old(r).index,
            },
    {
        let list = self.particles.as_slice();
        assert(list@ == self@);
        r.get(list)
    }

    /// Mutable access to the physical state of the particle that `r`
    /// designates; its id and group stay as they are, and the cached index of
    /// `r` is refreshed with the slot found.
    pub fn state_mut(&mut self, r: &mut ParticleReference) -> (res: Result<&mut S, EngineError>)
        requires
            old(self).wf(),
        ensures
            final(self).wf(),
            final(self).next_id() == old(self).next_id(),
            final(r).id == old(r).id,
            match res {
                Ok(s) => exists|k: int|
                    resolves_to(*old(r), old(self)@, k) && *s == old(self)@[k].state && final(self)@
                        == old(self)@.update(
                        k,
                        Particle { id: old(self)@[k].id, group: old(self)@[k].group, state: *final(s) },
                    ) && final(r).index == k,
                Err(e) => e == EngineError::UnknownEntity && !holds_id(old(self)@, old(r).id)
                    && final(self)@ == old(self)@ && final(r).index == old(r).index,
            },
    {
        match r.resolve(self.particles.as_slice()) {
            Ok(k) => Ok(self.state_at_mut(k)),
            Err(e) => Err(e),
        }
    }

    /// Mutable access to the physical state in slot `k`; its id and group stay
    /// as they are.
    pub fn state_at_mut(&mut self, k: usize) -> (s: &mut S)
        requires
            old(self).wf(),
            k < old(self)@.len(),
        ensures
            final(self).wf(),
            final(self).next_id() == old(self).next_id(),
            *s == old(self)@[k as int].state,
            final(self)@ == old(self)@.update(
                k as int,
                Particle { id: old(self)@[k as int].id, group: old(self)@[k as int].group, state: *final(s) },
            ),
    {
        &mut self.particles[k].state
    }
}

} // verus!
