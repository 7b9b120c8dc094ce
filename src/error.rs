use vstd::prelude::*;

verus! {

/// The ways a kernel operation can refuse to proceed.
#[derive(Clone, Copy, Debug, PartialEq, Eq, Structural)]
pub enum EngineError {
    /// A reference names an id that no particle in the store carries.
    UnknownEntity,
    /// A geometric quantity (a separation, a normal) is too close to zero to
    /// give a direction.
    DegenerateGeometry,
    /// A computed force or correction is not a finite number.
    NonFinite,
}

/// Whether an error ends a step. A stale reference does; degenerate geometry
/// and non-finite values only make the offending interaction or constraint
/// skip its turn.
pub open spec fn fatal(e: EngineError) -> bool {
    e == EngineError::UnknownEntity
}

/// The outcome of one interaction or constraint as the step sees it: fatal
/// errors are passed on, every other outcome counts as done.
pub fn tolerate(result: Result<(), EngineError>) -> (r: Result<(), EngineError>)
    ensures
        r == (match result {
            Err(e) if fatal(e) => Err(e),
            _ => Ok::<(), EngineError>(()),
        }),
{
    match result {
        Err(EngineError::UnknownEntity) => Err(EngineError::UnknownEntity),
        _ => Ok(()),
    }
}

} // verus!
