use vstd::prelude::*;

use crate::particle::{Particle, ParticleReference};
use crate::step::{Phase, step_plan, step_schedule};
use crate::store::{ParticleStore, group_refs, reference_at, stamped, stamped_from};

verus! {

/// A simulation: the particle array, the interactions and constraints acting
/// on it, whether it runs, and how many substeps each step is divided into.
/// `S` is the physical state of a particle, `I` an interaction, `C` a
/// constraint.
pub struct System<S, I, C> {
    pub particles: ParticleStore<S>,
    pub interactions: Vec<I>,
    pub constraints: Vec<C>,
    pub running: bool,
    pub substeps: u32,
}

/// The number of substeps a new system divides each step into.
pub const DEFAULT_SUBSTEPS: u32 = 20;

impl<S, I, C> System<S, I, C> {
    pub open spec fn wf(&self) -> bool {
        self.particles.wf()
    }

    /// A running system with no particles, interactions or constraints.
    pub fn new() -> (s: System<S, I, C>)
        ensures
            s.wf(),
            s.particles@ == Seq::<Particle<S>>::empty(),
            s.particles.next_id() == 0,
            s.interactions@ == Seq::<I>::empty(),
            s.constraints@ == Seq::<C>::empty(),
            s.running,
            s.substeps == DEFAULT_SUBSTEPS,
    {
        System {
            particles: ParticleStore::new(),
            interactions: Vec::new(),
            constraints: Vec::new(),
            running: true,
            substeps: DEFAULT_SUBSTEPS,
        }
    }

    /// Adds a particle under the next id; see `ParticleStore::add_particle`.
    pub fn add_particle(&mut self, particle: Particle<S>) -> (r: ParticleReference)
        requires
            old(self).wf(),
            old(self).particles.next_id() < u32::MAX,
        ensures
            final(self).wf(),
            final(self).particles@ == old(self).particles@.push(stamped(particle, old(self).particles.next_id())),
            final(self).particles.next_id() == old(self).particles.next_id() + 1,
            r == (ParticleReference {
                id: old(self).particles.next_id(),
                index: old(self).particles@.len() as usize,
            }),
            final(self).interactions == old(self).interactions,
            final(self).constraints == old(self).constraints,
            final(self).running == old(self).running,
            final(self).substeps == old(self).substeps,
    {
        self.particles.add_particle(particle)
    }

    /// Adds particles in order under consecutive ids; see
    /// `ParticleStore::add_particles`.
    pub fn add_particles(&mut self, particles: Vec<Particle<S>>) -> (refs: Vec<ParticleReference>)
        requires
            old(self).wf(),
            old(self).particles.next_id() + particles@.len() <= u32::MAX,
        ensures
            final(self).wf(),
            final(self).particles@ == old(self).particles@ + stamped_from(
                particles@,
                old(self).particles.next_id() as int,
            ),
            final(self).particles.next_id() == old(self).particles.next_id() + particles@.len(),
            refs@.len() == particles@.len(),
            forall|i: int|
                0 <= i < refs@.len() ==> #[trigger] refs@[i] == (ParticleReference {
                    id: (old(self).particles.next_id() + i) as u32,
                    index: (old(self).particles@.len() + i) as usize,
                }),
            final(self).interactions == old(self).interactions,
            final(self).constraints == old(self).constraints,
            final(self).running == old(self).running,
            final(self).substeps == old(self).substeps,
    {
        self.particles.add_particles(particles)
    }

    /// Adds an interaction and returns its position in the interaction list.
    pub fn add_interaction(&mut self, interaction: I) -> (k: usize)
        ensures
            k == old(self).interactions@.len(),
            final(self).interactions@ == old(self).interactions@.push(interaction),
            final(self).particles == old(self).particles,
            final(self).constraints == old(self).constraints,
            final(self).running == old(self).running,
            final(self).substeps == old(self).substeps,
    {
        let k = self.interactions.len();
        self.interactions.push(interaction);
        k
    }

    /// Adds a constraint and returns its position in the constraint list.
    pub fn add_constraint(&mut self, constraint: C) -> (k: usize)
        ensures
            k == old(self).constraints@.len(),
            final(self).constraints@ == old(self).constraints@.push(constraint),
            final(self).particles == old(self).particles,
            final(self).interactions == old(self).interactions,
            final(self).running == old(self).running,
            final(self).substeps == old(self).substeps,
    {
        let k = self.constraints.len();
        self.constraints.push(constraint);
        k
    }

    /// References to every particle, in slot order.
    pub fn all_particles(&self) -> (refs: Vec<ParticleReference>)
        ensures
            refs@.len() == self.particles@.len(),
            forall|k: int| 0 <= k < refs@.len() ==> #[trigger] refs@[k] == reference_at(self.particles@, k),
    {
        self.particles.all_particles()
    }

    /// References to the particles of `group`, in slot order.
    pub fn particles_in_group(&self, group: u32) -> (refs: Vec<ParticleReference>)
        ensures
            refs@ == group_refs(self.particles@, group),
    {
        self.particles.particles_in_group(group)
    }

    /// The phases that one step of the given length runs.
    pub fn step_phases(&self, dt_is_zero: bool) -> (plan: Vec<Phase>)
        ensures
            plan@ == step_schedule(self.running, dt_is_zero, self.substeps as nat),
    {
        step_plan(self.running, dt_is_zero, self.substeps)
    }
}

} // verus!
