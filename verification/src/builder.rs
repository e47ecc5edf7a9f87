//! The builder: an ordered accumulator of attached initialization units,
//! and the composition phase that fills it from a build mode.

use vstd::prelude::*;

use crate::units::BuildMode;
use crate::units::InitUnit;
use crate::units::spec_units_for;
use crate::units::units_for;

verus! {

/// An ordered accumulator of attached initialization units. It is created
/// empty, mutated only during the attach phase, and meant to be consumed
/// exactly once by the run loop, never reused.
pub struct Builder {
    attached: Vec<InitUnit>,
}

impl View for Builder {
    type V = Seq<InitUnit>;

    /// A builder is modelled by the ordered sequence of units attached to it.
    closed spec fn view(&self) -> Seq<InitUnit> {
        self.attached@
    }
}

impl Builder {
    /// A fresh builder with no units attached.
    pub fn new() -> (b: Builder)
        ensures
            b@ == Seq::<InitUnit>::empty(),
    {
        let b = Builder { attached: Vec::new() };
        proof {
            assert(b@ =~= Seq::<InitUnit>::empty());
        }
        b
    }

    /// Attaches one unit, appending it after every unit attached so far.
    /// Attachment is infallible.
    pub fn attach(self, unit: InitUnit) -> (b: Builder)
        ensures
            b@ == self@.push(unit),
    {
        let mut attached = self.attached;
        attached.push(unit);
        Builder { attached }
    }

    /// The units attached so far, in attachment order.
    pub fn attached_units(&self) -> (units: &Vec<InitUnit>)
        ensures
            units@ == self@,
    {
        &self.attached
    }

    /// How many units are attached.
    pub fn len(&self) -> (n: usize)
        ensures
            n == self@.len(),
    {
        self.attached.len()
    }
}

/// The composition phase: a fresh builder with exactly the units for `mode`
/// attached, in order. In release mode the builder passes through the attach
/// phase unchanged; in debug mode it receives the devtools core unit first
/// and the app bridge second.
pub fn compose(mode: BuildMode) -> (b: Builder)
    ensures
        b@ == spec_units_for(mode),
        mode is Release ==> b@.len() == 0,
{
    let units = units_for(mode);
    let mut b = Builder::new();
    let mut i: usize = 0;
    while i < units.len()
        invariant
            i <= units@.len(),
            units@ == spec_units_for(mode),
            b@ == spec_units_for(mode).take(i as int),
        decreases units@.len() - i,
    {
        proof {
            assert(spec_units_for(mode).take(i + 1) =~= spec_units_for(mode).take(i as int).push(
                spec_units_for(mode)[i as int],
            ));
        }
        b = b.attach(units[i]);
        i = i + 1;
    }
    proof {
        assert(spec_units_for(mode).take(units@.len() as int) =~= spec_units_for(mode));
    }
    b
}

/// Composition is deterministic and repeatable: two builders composed from
/// the same build mode hold structurally identical ordered unit sequences.
pub proof fn lemma_compose_deterministic(first: Builder, second: Builder, mode: BuildMode)
    requires
        first@ == spec_units_for(mode),
        second@ == spec_units_for(mode),
    ensures
        first@ == second@,
{
}

} // verus!
