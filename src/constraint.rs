use vstd::prelude::*;

verus! {

/// Whether a constraint asks for `C == 0` or for `C >= 0`.
#[derive(Clone, Copy, Debug, PartialEq, Eq, Structural)]
pub enum ConstraintType {
    Equation,
    Inequality,
}

/// The sign of an evaluated constraint function `C`.
#[derive(Clone, Copy, Debug, PartialEq, Eq, Structural)]
pub enum Sign {
    Negative,
    Zero,
    Positive,
}

/// What one projection of a constraint does with its positional correction.
#[derive(Clone, Copy, Debug, PartialEq, Eq, Structural)]
pub enum Correction {
    /// The constraint is satisfied, or broken: nothing is corrected.
    Skip,
    /// The correction is added to the positions at once.
    Displace,
    /// The correction is turned into an equivalent force and queued for the
    /// next force-accumulation phase.
    QueueForce,
}

/// Whether a constraint of the given type holds at a value of the given sign.
pub open spec fn satisfied(constraint_type: ConstraintType, c: Sign) -> bool {
    match constraint_type {
        ConstraintType::Equation => c == Sign::Zero,
        ConstraintType::Inequality => c != Sign::Negative,
    }
}

pub fn is_satisfied(constraint_type: ConstraintType, c: Sign) -> (r: bool)
    ensures
        r == satisfied(constraint_type, c),
{
    match constraint_type {
        ConstraintType::Equation => c == Sign::Zero,
        ConstraintType::Inequality => c != Sign::Negative,
    }
}

/// The discrete state of a compliant constraint: its type, how it applies its
/// corrections, and whether it can break and has broken. Breaking is one-way.
#[derive(Clone, Copy, Debug, PartialEq, Eq, Structural)]
pub struct XpbdFlags {
    pub constraint_type: ConstraintType,
    pub as_force: bool,
    pub breakable: bool,
    pub broken: bool,
}

impl XpbdFlags {
    /// Only a breakable constraint can be broken.
    pub open spec fn wf(self) -> bool {
        self.broken ==> self.breakable
    }

    /// The correction a projection makes when the constraint evaluates to a
    /// value of sign `c`.
    pub open spec fn planned(self, c: Sign, static_pass: bool) -> Correction {
        if self.broken || satisfied(self.constraint_type, c) {
            Correction::Skip
        } else if self.as_force && !static_pass {
            Correction::QueueForce
        } else {
            Correction::Displace
        }
    }

    /// The flags after a projection whose force did (`exceeds`) or did not
    /// exceed the breaking limit.
    pub open spec fn loaded(self, exceeds: bool) -> XpbdFlags {
        XpbdFlags { broken: self.broken || (self.breakable && exceeds), ..self }
    }

    /// A rigid, unbreakable equation constraint that displaces positions.
    pub fn new() -> (f: XpbdFlags)
        ensures
            f.wf(),
            f.constraint_type == ConstraintType::Equation,
            !f.as_force,
            !f.breakable,
            !f.broken,
    {
        XpbdFlags { constraint_type: ConstraintType::Equation, as_force: false, breakable: false, broken: false }
    }

    pub fn as_force(self) -> (f: XpbdFlags)
        ensures
            f == (XpbdFlags { as_force: true, ..self }),
    {
        XpbdFlags { as_force: true, ..self }
    }

    pub fn as_inequality(self) -> (f: XpbdFlags)
        ensures
            f == (XpbdFlags { constraint_type: ConstraintType::Inequality, ..self }),
    {
        XpbdFlags { constraint_type: ConstraintType::Inequality, ..self }
    }

    /// Marks the constraint as one that breaks under too large a force.
    pub fn breakable(self) -> (f: XpbdFlags)
        ensures
            f == (XpbdFlags { breakable: true, ..self }),
    {
        XpbdFlags { breakable: true, ..self }
    }

    /// Decides a projection: broken and satisfied constraints are skipped;
    /// otherwise the correction is queued as a force in an as-force dynamic
    /// pass, and displaces positions directly in every other case.
    pub fn plan(&self, c: Sign, static_pass: bool) -> (r: Correction)
        ensures
            r == self.planned(c, static_pass),
    {
        if self.broken || is_satisfied(self.constraint_type, c) {
            Correction::Skip
        } else if self.as_force && !static_pass {
            Correction::QueueForce
        } else {
            Correction::Displace
        }
    }

    /// Records the force of a projection; a breakable constraint whose force
    /// exceeded its limit breaks for good.
    pub fn record_load(&mut self, exceeds: bool)
        requires
            old(self).wf(),
        ensures
            *final(self) == old(self).loaded(exceeds),
            final(self).wf(),
    {
        if self.breakable && exceeds {
            self.broken = true;
        }
    }
}

/// Marks a constraint that bounds particles to a region.
pub trait BoundaryConstraint {
}

/// One projection as seen by the flags: the sign of `C`, whether the pass is
/// static, and whether the resulting force exceeded the breaking limit.
pub struct Projection {
    pub c: Sign,
    pub static_pass: bool,
    pub exceeds: bool,
}

/// The flags after a run of projections. A skipped projection records no
/// load.
pub open spec fn after_projections(f: XpbdFlags, run: Seq<Projection>) -> XpbdFlags
    decreases run.len(),
{
    if run.len() == 0 {
        f
    } else {
        let g = after_projections(f, run.drop_last());
        let p = run.last();
        if g.planned(p.c, p.static_pass) == Correction::Skip {
            g
        } else {
            g.loaded(p.exceeds)
        }
    }
}

/// Breaking is permanent: once broken, a constraint stays broken through any
/// later run of projections, whatever their loads, and skips every one of them.
pub proof fn lemma_broken_stays_broken(f: XpbdFlags, run: Seq<Projection>)
    requires
        f.broken,
    ensures
        after_projections(f, run).broken,
        forall|c: Sign, static_pass: bool|
            #[trigger] after_projections(f, run).planned(c, static_pass) == Correction::Skip,
    decreases run.len(),
{
    if run.len() > 0 {
        lemma_broken_stays_broken(f, run.drop_last());
    }
}

} // verus!
