//! Bookkeeping core of a particle simulation kernel: particle identity and
//! self-healing references, interaction couplings and their visiting order,
//! the classification and breakage rules of compliant constraints, and the
//! phase schedule of a substepped time step. The floating-point arithmetic of
//! the physics is supplied by the host around this crate.

pub mod error;
pub mod particle;
pub mod store;
pub mod interaction;
pub mod constraint;
pub mod step;
pub mod system;
