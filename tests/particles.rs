use engine::error::EngineError;
use engine::particle::{Particle, ParticleReference};
use engine::store::ParticleStore;

fn labelled(ids: &[u32]) -> Vec<Particle<&'static str>> {
    ids.iter().map(|&id| Particle::new("body").id(id)).collect()
}

#[test]
fn reference_new_keeps_fields() {
    let r = ParticleReference::new(7, 3);
    assert_eq!(r.id, 7);
    assert_eq!(r.index, 3);
}

#[test]
fn particle_builders_set_identity() {
    let p = Particle::new(5u8).id(4).group(9);
    assert_eq!(p.id, 4);
    assert_eq!(p.group, 9);
    assert_eq!(p.state, 5);
    let q = Particle::new(1u8);
    assert_eq!((q.id, q.group), (0, 0));
}

#[test]
fn get_uses_cached_index_when_it_matches() {
    let list = labelled(&[10, 11, 12]);
    let mut r = ParticleReference::new(11, 1);
    let p = r.get(&list).unwrap();
    assert_eq!(p.id, 11);
    assert_eq!(r.index, 1);
}

#[test]
fn get_prefers_cached_slot_over_earlier_duplicate() {
    // ids are unique in a store; on a raw list the cached slot wins
    let list = labelled(&[5, 5, 6]);
    let mut r = ParticleReference::new(5, 1);
    assert_eq!(r.resolve(&list), Ok(1));
    let mut stale = ParticleReference::new(5, 2);
    assert_eq!(stale.resolve(&list), Ok(0));
}

#[test]
fn get_survives_a_shuffle() {
    let ordered = labelled(&[0, 1, 2, 3, 4]);
    let mut r = ParticleReference::new(3, 3);
    assert_eq!(r.get(&ordered).unwrap().id, 3);
    let shuffled = labelled(&[4, 3, 0, 2, 1]);
    assert_eq!(r.get(&shuffled).unwrap().id, 3);
    assert_eq!(r.index, 1);
    let reversed = labelled(&[4, 3, 2, 1, 0]);
    assert_eq!(r.get(&reversed).unwrap().id, 3);
    assert_eq!(r.index, 1);
}

#[test]
fn get_falls_back_when_index_is_out_of_range() {
    let list = labelled(&[8, 9]);
    let mut r = ParticleReference::new(9, 40);
    assert_eq!(r.get(&list).unwrap().id, 9);
    assert_eq!(r.index, 1);
}

#[test]
fn resolve_refreshes_cached_index() {
    let list = labelled(&[2, 0, 1]);
    let mut r = ParticleReference::new(1, 1);
    assert_eq!(r.resolve(&list), Ok(2));
    assert_eq!(r.index, 2);
    assert_eq!(r.id, 1);
}

#[test]
fn unknown_id_is_reported() {
    let list = labelled(&[0, 1]);
    let mut r = ParticleReference::new(5, 0);
    assert_eq!(r.get(&list).err(), Some(EngineError::UnknownEntity));
    assert_eq!(r, ParticleReference::new(5, 0));
    let mut c = r;
    assert_eq!(c.resolve(&list), Err(EngineError::UnknownEntity));
    assert_eq!(c.index, 0);
    let empty: Vec<Particle<&str>> = Vec::new();
    assert_eq!(r.get(&empty).err(), Some(EngineError::UnknownEntity));
}

#[test]
fn get_mut_changes_only_the_referenced_particle() {
    let mut list = vec![Particle::new(1i32).id(0), Particle::new(2i32).id(1), Particle::new(3i32).id(2)];
    let mut r = ParticleReference::new(2, 0);
    r.get_mut(&mut list).unwrap().state = 30;
    assert_eq!(r.index, 2);
    assert_eq!(list.iter().map(|p| p.state).collect::<Vec<_>>(), vec![1, 2, 30]);
    let mut missing = ParticleReference::new(9, 0);
    assert_eq!(missing.get_mut(&mut list).err(), Some(EngineError::UnknownEntity));
}

#[test]
fn store_assigns_consecutive_ids() {
    let mut store = ParticleStore::new();
    assert_eq!(store.len(), 0);
    let a = store.add_particle(Particle::new('a').id(77));
    let mut b = store.add_particle(Particle::new('b').group(2));
    assert_eq!(a, ParticleReference::new(0, 0));
    assert_eq!(b, ParticleReference::new(1, 1));
    assert_eq!(store.next_particle_id(), 2);
    assert_eq!(store.particles()[0].id, 0);
    assert_eq!(store.particles()[1].group, 2);
    assert_eq!(store.get(&mut b).unwrap().state, 'b');
}

#[test]
fn store_adds_many_in_order() {
    let mut store = ParticleStore::new();
    store.add_particle(Particle::new(0u8));
    let refs = store.add_particles(vec![Particle::new(1u8), Particle::new(2u8), Particle::new(3u8)]);
    assert_eq!(
        refs,
        vec![ParticleReference::new(1, 1), ParticleReference::new(2, 2), ParticleReference::new(3, 3)]
    );
    let states: Vec<u8> = store.particles().iter().map(|p| p.state).collect();
    assert_eq!(states, vec![0, 1, 2, 3]);
    assert_eq!(store.add_particles(Vec::new()), Vec::new());
}

#[test]
fn store_lists_all_and_grouped_particles() {
    let mut store = ParticleStore::new();
    store.add_particles(vec![
        Particle::new(()).group(1),
        Particle::new(()).group(0),
        Particle::new(()).group(1),
        Particle::new(()).group(3),
    ]);
    assert_eq!(
        store.all_particles(),
        vec![
            ParticleReference::new(0, 0),
            ParticleReference::new(1, 1),
            ParticleReference::new(2, 2),
            ParticleReference::new(3, 3)
        ]
    );
    assert_eq!(
        store.particles_in_group(1),
        vec![ParticleReference::new(0, 0), ParticleReference::new(2, 2)]
    );
    assert_eq!(store.particles_in_group(3), vec![ParticleReference::new(3, 3)]);
    assert!(store.particles_in_group(7).is_empty());
}

#[test]
fn store_state_access_keeps_identity() {
    let mut store = ParticleStore::new();
    let mut refs = store.add_particles(vec![Particle::new(1.5f64).group(4), Particle::new(2.5f64)]);
    *store.state_mut(&mut refs[0]).unwrap() += 1.0;
    *store.state_at_mut(1) *= 2.0;
    assert_eq!(store.particles()[0].state, 2.5);
    assert_eq!(store.particles()[0].group, 4);
    assert_eq!(store.particles()[0].id, 0);
    assert_eq!(store.particles()[1].state, 5.0);
    assert_eq!(
        store.state_mut(&mut ParticleReference::new(8, 0)).err(),
        Some(EngineError::UnknownEntity)
    );
}

#[test]
fn store_lookups_refresh_the_cached_index() {
    let mut store = ParticleStore::new();
    store.add_particles(vec![Particle::new(10u8), Particle::new(20u8)]);
    let mut stale = ParticleReference::new(1, 0);
    assert_eq!(store.get(&mut stale).unwrap().state, 20);
    assert_eq!(stale, ParticleReference::new(1, 1));
    let mut other = ParticleReference::new(0, 5);
    *store.state_mut(&mut other).unwrap() += 1;
    assert_eq!(other, ParticleReference::new(0, 0));
    assert_eq!(store.particles()[0].state, 11);
}
