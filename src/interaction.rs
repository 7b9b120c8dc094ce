use vstd::prelude::*;

use crate::error::EngineError;
use crate::particle::{Particle, ParticleReference, holds_id, resolves_to};

verus! {

/// How an interaction visits the particles coupled to it.
#[derive(Clone, Copy, Debug, PartialEq, Eq, Structural)]
pub enum InteractionType {
    /// Particles feed a field state, the field advances, then each particle
    /// queries it for a force.
    FieldParticle,
    /// Every unordered pair of coupled particles is visited once, and the force
    /// found is applied to both with opposite signs.
    ParticleParticle,
    /// Each coupled particle is visited on its own.
    SimpleForce,
}

/// `(a, b)` comes before `(c, d)` in lexicographic order.
pub open spec fn pair_before(p: (usize, usize), q: (usize, usize)) -> bool {
    p.0 < q.0 || (p.0 == q.0 && p.1 < q.1)
}

/// `(i, j)` stands somewhere in `pairs`.
pub open spec fn lists_pair(pairs: Seq<(usize, usize)>, i: usize, j: usize) -> bool {
    exists|k: int| 0 <= k < pairs.len() && #[trigger] pairs[k] == (i, j)
}

/// Every pair `(i, j)` with `i < j < n`, each once, in lexicographic order:
/// the visiting order of a pairwise interaction over `n` coupled particles.
pub fn unordered_pairs(n: usize) -> (pairs: Vec<(usize, usize)>)
    ensures
        forall|k: int| 0 <= k < pairs@.len() ==> #[trigger] pairs@[k].0 < pairs@[k].1 && pairs@[k].1 < n,
        forall|i: usize, j: usize| i < j < n ==> #[trigger] lists_pair(pairs@, i, j),
        forall|a: int, b: int|
            0 <= a < b < pairs@.len() ==> pair_before(#[trigger] pairs@[a], #[trigger] pairs@[b]),
{
    let mut pairs: Vec<(usize, usize)> = Vec::new();
    let mut i: usize = 0;
    while i < n
        invariant
            i <= n,
            forall|k: int| 0 <= k < pairs@.len() ==> #[trigger] pairs@[k].0 < i && pairs@[k].0 < pairs@[k].1 && pairs@[k].1 < n,
            forall|a: usize, b: usize| a < b < n && a < i ==> #[trigger] lists_pair(pairs@, a, b),
            forall|a: int, b: int|
                0 <= a < b < pairs@.len() ==> pair_before(#[trigger] pairs@[a], #[trigger] pairs@[b]),
        decreases n - i,
    {
        let mut j: usize = i + 1;
        while j < n
            invariant
                i < n,
                i + 1 <= j <= n,
                forall|k: int|
                    0 <= k < pairs@.len() ==> #[trigger] pairs@[k].0 <= i && pairs@[k].0 < pairs@[k].1 && pairs@[k].1 < n
                        && (pairs@[k].0 == i ==> pairs@[k].1 < j),
                forall|a: usize, b: usize|
                    a < b < n && (a < i || (a == i && b < j)) ==> #[trigger] lists_pair(pairs@, a, b),
                forall|a: int, b: int|
                    0 <= a < b < pairs@.len() ==> pair_before(#[trigger] pairs@[a], #[trigger] pairs@[b]),
            decreases n - j,
        {
            let ghost before = pairs@;
            pairs.push((i, j));
            assert forall|a: usize, b: usize|
                a < b < n && (a < i || (a == i && b < j + 1)) implies #[trigger] lists_pair(pairs@, a, b) by {
                if a == i && b == j {
                    assert(pairs@[before.len() as int] == (a, b));
                } else {
                    assert(lists_pair(before, a, b));
                    let k = choose|k: int| 0 <= k < before.len() && before[k] == (a, b);
                    assert(pairs@[k] == (a, b));
                }
            }
            j = j + 1;
        }
        i = i + 1;
    }
    pairs
}

/// `after` is `before` with the references ahead of position `i` resolved
/// against `list` and their cached indices refreshed, and the others as they
/// were.
pub open spec fn refreshed_before<S>(
    before: Seq<ParticleReference>,
    after: Seq<ParticleReference>,
    list: Seq<Particle<S>>,
    i: int,
) -> bool {
    &&& after.len() == before.len()
    &&& forall|k: int|
        0 <= k < i ==> #[trigger] after[k].id == before[k].id && resolves_to(
            before[k],
            list,
            after[k].index as int,
        )
    &&& forall|k: int| i <= k < before.len() ==> #[trigger] after[k] == before[k]
}

/// The particles an interaction is coupled to, and how it visits them.
pub struct FieldProperties {
    coupled_particles: Vec<ParticleReference>,
    interaction_type: InteractionType,
}

impl View for FieldProperties {
    type V = Seq<ParticleReference>;

    closed spec fn view(&self) -> Seq<ParticleReference> {
        self.coupled_particles@
    }
}

impl FieldProperties {
    pub closed spec fn kind(&self) -> InteractionType {
        self.interaction_type
    }

    /// An interaction of the given type, coupled to no particle yet.
    pub fn new(interaction_type: InteractionType) -> (f: FieldProperties)
        ensures
            f@ == Seq::<ParticleReference>::empty(),
            f.kind() == interaction_type,
    {
        FieldProperties { coupled_particles: Vec::new(), interaction_type }
    }

    pub fn interaction_type(&self) -> (t: InteractionType)
        ensures
            t == self.kind(),
    {
        self.interaction_type
    }

    pub fn coupled_particles(&self) -> (refs: &[ParticleReference])
        ensures
            refs@ == self@,
    {
        self.coupled_particles.as_slice()
    }

    pub fn add_particle(&mut self, reference: ParticleReference)
        ensures
            final(self)@ == old(self)@.push(reference),
            final(self).kind() == old(self).kind(),
    {
        self.coupled_particles.push(reference);
    }

    pub fn add_particles(&mut self, references: &[ParticleReference])
        ensures
            final(self)@ == old(self)@ + references@,
            final(self).kind() == old(self).kind(),
    {
        let mut k: usize = 0;
        while k < references.len()
            invariant
                k <= references@.len(),
                self@ == old(self)@ + references@.take(k as int),
                self.kind() == old(self).kind(),
            decreases references@.len() - k,
        {
            self.coupled_particles.push(references[k]);
            k = k + 1;
            assert(references@.take(k as int) =~= references@.take(k - 1).push(references@[k - 1]));
        }
        assert(references@.take(k as int) =~= references@);
    }

    pub fn with_particle(self, reference: ParticleReference) -> (f: FieldProperties)
        ensures
            f@ == self@.push(reference),
            f.kind() == self.kind(),
    {
        let mut f = self;
        f.add_particle(reference);
        f
    }

    pub fn with_particles(self, references: &[ParticleReference]) -> (f: FieldProperties)
        ensures
            f@ == self@ + references@,
            f.kind() == self.kind(),
    {
        let mut f = self;
        f.add_particles(references);
        f
    }

    /// Resolves every coupled reference against `list`, in coupling order,
    /// refreshing each cached index with the slot found. Fails as soon as a
    /// reference names an id that `list` does not hold; the references ahead
    /// of it are then refreshed and the others left as they were.
    pub fn resolve_coupled<S>(&mut self, list: &[Particle<S>]) -> (res: Result<Vec<usize>, EngineError>)
        ensures
            final(self).kind() == old(self).kind(),
            final(self)@.len() == old(self)@.len(),
            forall|i: int| 0 <= i < old(self)@.len() ==> #[trigger] final(self)@[i].id == old(self)@[i].id,
            match res {
                Ok(slots) => {
                    &&& slots@.len() == old(self)@.len()
                    &&& forall|i: int|
                        0 <= i < slots@.len() ==> resolves_to(old(self)@[i], list@, #[trigger] slots@[i] as int)
                            && final(self)@[i].index == slots@[i]
                },
                Err(e) => e == EngineError::UnknownEntity && exists|i: int|
                    0 <= i < old(self)@.len() && !holds_id(list@, old(self)@[i].id)
                        && #[trigger] refreshed_before(old(self)@, final(self)@, list@, i),
            },
    {
        let mut slots: Vec<usize> = Vec::new();
        let n = self.coupled_particles.len();
        let mut i: usize = 0;
        while i < n
            invariant
                n == old(self)@.len(),
                i <= n,
                self.kind() == old(self).kind(),
                self@.len() == n,
                forall|k: int| 0 <= k < n ==> #[trigger] self@[k].id == old(self)@[k].id,
                forall|k: int| i <= k < n ==> #[trigger] self@[k] == old(self)@[k],
                slots@.len() == i,
                forall|k: int|
                    0 <= k < i ==> resolves_to(old(self)@[k], list@, #[trigger] slots@[k] as int)
                        && self@[k].index == slots@[k],
            decreases n - i,
        {
            let mut r = self.coupled_particles[i];
            let found = r.resolve(list);
            self.coupled_particles.set(i, r);
            match found {
                Ok(k) => {
                    slots.push(k);
                },
                Err(e) => {
                    assert(self@[i as int] == old(self)@[i as int]);
                    assert forall|k: int| 0 <= k < i implies #[trigger] self@[k].id == old(self)@[k].id
                        && resolves_to(old(self)@[k], list@, self@[k].index as int) by {
                        assert(resolves_to(old(self)@[k], list@, slots@[k] as int));
                    }
                    assert(refreshed_before(old(self)@, self@, list@, i as int));
                    return Err(e);
                },
            }
            i = i + 1;
        }
        Ok(slots)
    }
}

/// Two coupled references with different ids never resolve to the same slot,
/// so the particles of a visited pair can be updated one after the other
/// without one access standing for the other.
pub proof fn lemma_distinct_ids_distinct_slots<S>(
    r1: ParticleReference,
    r2: ParticleReference,
    list: Seq<Particle<S>>,
    k1: int,
    k2: int,
)
    requires
        r1.id != r2.id,
        resolves_to(r1, list, k1),
        resolves_to(r2, list, k2),
    ensures
        k1 != k2,
{
}

/// Keeps coupled particles from overlapping: each visited pair is pushed apart
/// until their separation reaches the sum of their radii.
pub struct NoOverlapConstraint {
    properties: FieldProperties,
}

impl NoOverlapConstraint {
    pub fn new() -> (c: NoOverlapConstraint)
        ensures
            c.properties()@ == Seq::<ParticleReference>::empty(),
            c.properties().kind() == InteractionType::ParticleParticle,
    {
        NoOverlapConstraint { properties: FieldProperties::new(InteractionType::ParticleParticle) }
    }

    /// It acts as a constraint, correcting positions, rather than as a force.
    pub fn is_constraint(&self) -> (b: bool)
        ensures
            b,
    {
        true
    }

    pub closed spec fn properties(&self) -> FieldProperties {
        self.properties
    }

    pub fn coupling(&self) -> (f: &FieldProperties)
        ensures
            *f == self.properties(),
    {
        &self.properties
    }

    pub fn coupling_mut(&mut self) -> (f: &mut FieldProperties)
        ensures
            *f == old(self).properties(),
            final(self).properties() == *final(f),
    {
        &mut self.properties
    }
}

/// Marks a particle-grid coupling of a material point method.
pub trait MpmInteraction {
}

} // verus!
