use engine::particle::{Particle, ParticleReference};
use engine::step::Phase;
use engine::system::{System, DEFAULT_SUBSTEPS};

type Sim = System<i64, &'static str, char>;

#[test]
fn new_system_runs_with_default_substeps() {
    let s = Sim::new();
    assert!(s.running);
    assert_eq!(s.substeps, 20);
    assert_eq!(DEFAULT_SUBSTEPS, 20);
    assert_eq!(s.particles.len(), 0);
    assert!(s.interactions.is_empty());
    assert!(s.constraints.is_empty());
}

#[test]
fn adders_return_positions() {
    let mut s = Sim::new();
    assert_eq!(s.add_interaction("gravity"), 0);
    assert_eq!(s.add_interaction("falling"), 1);
    assert_eq!(s.add_constraint('d'), 0);
    assert_eq!(s.interactions, vec!["gravity", "falling"]);
    assert_eq!(s.constraints, vec!['d']);
}

#[test]
fn system_particles_and_groups() {
    let mut s = Sim::new();
    let a = s.add_particle(Particle::new(5).group(2));
    let mut more = s.add_particles(vec![Particle::new(6), Particle::new(7).group(2)]);
    assert_eq!(a, ParticleReference::new(0, 0));
    assert_eq!(more, vec![ParticleReference::new(1, 1), ParticleReference::new(2, 2)]);
    assert_eq!(s.all_particles().len(), 3);
    assert_eq!(
        s.particles_in_group(2),
        vec![ParticleReference::new(0, 0), ParticleReference::new(2, 2)]
    );
    assert_eq!(s.particles.get(&mut more[1]).unwrap().state, 7);
}

#[test]
fn system_step_phases_follow_settings() {
    let mut s = Sim::new();
    s.substeps = 1;
    assert_eq!(
        s.step_phases(false),
        vec![
            Phase::Interactions,
            Phase::Integrate,
            Phase::Constraints,
            Phase::Velocities,
            Phase::AdvanceTime
        ]
    );
    assert!(s.step_phases(true).is_empty());
    s.running = false;
    assert!(s.step_phases(false).is_empty());
}
