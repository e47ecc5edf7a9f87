//! Build modes and the initialization units each mode attaches.

use vstd::prelude::*;

verus! {

/// How the binary was built. Resolved once, before startup begins, and
/// immutable for the process lifetime.
#[derive(Clone, Copy, PartialEq, Eq, Structural, Debug)]
pub enum BuildMode {
    Debug,
    Release,
}

/// A named initialization capability that can be attached to a builder.
/// What a unit does internally is opaque; the sequencer only guarantees
/// that attachment happens, in the specified order.
#[derive(Clone, Copy, PartialEq, Eq, Structural, Debug)]
pub enum InitUnit {
    /// Core diagnostics instrumentation; must be attached first.
    DevtoolsCore,
    /// Application-side bridge to the diagnostics instrumentation; defined
    /// relative to the core unit having already been attached.
    DevtoolsAppBridge,
}

impl InitUnit {
    /// The unit's diagnostic name.
    pub open spec fn spec_name(self) -> Seq<char> {
        match self {
            InitUnit::DevtoolsCore => "devtools-core"@,
            InitUnit::DevtoolsAppBridge => "devtools-app-bridge"@,
        }
    }

    /// The unit's diagnostic name.
    pub fn name(&self) -> (s: &'static str)
        ensures
            s@ == self.spec_name(),
    {
        match self {
            InitUnit::DevtoolsCore => "devtools-core",
            InitUnit::DevtoolsAppBridge => "devtools-app-bridge",
        }
    }
}

/// The ordered unit sequence for a build mode: debug builds attach the two
/// devtools units, core strictly before the bridge; release builds attach
/// none. No runtime input affects this choice.
pub open spec fn spec_units_for(mode: BuildMode) -> Seq<InitUnit> {
    match mode {
        BuildMode::Debug => seq![InitUnit::DevtoolsCore, InitUnit::DevtoolsAppBridge],
        BuildMode::Release => seq![],
    }
}

/// Computes the ordered unit sequence for a build mode.
pub fn units_for(mode: BuildMode) -> (units: Vec<InitUnit>)
    ensures
        units@ == spec_units_for(mode),
        mode is Release ==> units@ =~= Seq::<InitUnit>::empty(),
        mode is Debug ==> units@ =~= seq![InitUnit::DevtoolsCore, InitUnit::DevtoolsAppBridge],
{
    match mode {
        BuildMode::Debug => {
            let mut units: Vec<InitUnit> = Vec::new();
            units.push(InitUnit::DevtoolsCore);
            units.push(InitUnit::DevtoolsAppBridge);
            proof {
                assert(units@ =~= spec_units_for(mode));
            }
            units
        },
        BuildMode::Release => {
            let units: Vec<InitUnit> = Vec::new();
            proof {
                assert(units@ =~= spec_units_for(mode));
            }
            units
        },
    }
}

} // verus!
