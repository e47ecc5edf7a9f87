//! The bootstrap sequencer: a state machine that announces, one decision at a
//! time, what the embedding shell must do next — attach a unit, enter the run
//! loop, exit normally, or abort fatally. The shell performs each action and
//! reports the outcome back as an event; the sequencer itself does no I/O.

use vstd::prelude::*;

use crate::units::BuildMode;
use crate::units::InitUnit;
use crate::units::spec_units_for;
use crate::units::units_for;

verus! {

/// The terminal error a run loop can report. It is opaque beyond a
/// human-readable message and is produced only by the run loop; unit
/// construction and attachment are infallible.
#[derive(Debug)]
pub struct StartupError {
    pub message: String,
}

/// The sequencer's lifecycle. `Finished` and `Aborted` are absorbing: the
/// sequencer accepts no further event in either.
#[derive(Clone, Copy, PartialEq, Eq, Structural, Debug)]
pub enum Phase {
    /// Nothing has happened yet.
    Unstarted,
    /// Units are being attached, in their fixed order.
    Composing,
    /// The run loop has been entered; control is with the collaborator.
    Running,
    /// The run loop returned normally.
    Finished,
    /// The run loop reported a startup failure; the failure is fatal and
    /// nothing is retried.
    Aborted,
}

/// What the embedding shell reports back to the sequencer.
#[derive(Debug)]
pub enum Event {
    /// The process has started.
    Begin,
    /// The most recently announced unit has been attached.
    UnitAttached,
    /// The run loop returned, either normally or with a startup failure.
    RunReturned(Result<(), StartupError>),
}

/// What the sequencer asks the embedding shell to do next.
#[derive(Debug)]
pub enum Action {
    /// Attach this unit to the builder, then report `UnitAttached`.
    Attach(InitUnit),
    /// Hand the builder to the run loop, exactly once, then report
    /// `RunReturned` with its result.
    Run,
    /// The run loop terminated gracefully; the process may exit normally.
    Exit,
    /// Startup failed: surface this message to the operator and terminate
    /// the process with a non-zero status. No recovery, no retry.
    Abort(String),
}

/// Drives startup for one process invocation: attaches the units that the
/// build mode calls for, in order, then requests the run loop exactly once
/// and turns its result into a terminal verdict.
pub struct Sequencer {
    mode: BuildMode,
    phase: Phase,
    issued: usize,
    run_requests: usize,
}

impl Sequencer {
    /// The build mode this sequencer was created with.
    pub closed spec fn spec_mode(self) -> BuildMode {
        self.mode
    }

    /// Where in its lifecycle the sequencer stands.
    pub closed spec fn spec_phase(self) -> Phase {
        self.phase
    }

    /// How many attach actions have been announced so far.
    pub closed spec fn spec_issued(self) -> usize {
        self.issued
    }

    /// How many times the run loop has been requested.
    pub closed spec fn spec_runs(self) -> usize {
        self.run_requests
    }

    /// The sequencer's invariant: attach announcements never pass the end of
    /// the mode's unit sequence, the run loop is never requested before
    /// composition nor more than once, and once running every unit has been
    /// announced.
    pub open spec fn wf(self) -> bool {
        &&& self.spec_issued() <= spec_units_for(self.spec_mode()).len()
        &&& match self.spec_phase() {
            Phase::Unstarted => self.spec_issued() == 0 && self.spec_runs() == 0,
            Phase::Composing => self.spec_runs() == 0,
            Phase::Running => self.spec_runs() == 1 && self.spec_issued()
                == spec_units_for(self.spec_mode()).len(),
            Phase::Finished => self.spec_runs() == 1 && self.spec_issued()
                == spec_units_for(self.spec_mode()).len(),
            Phase::Aborted => self.spec_runs() == 1 && self.spec_issued()
                == spec_units_for(self.spec_mode()).len(),
        }
    }

    /// Which events the sequencer accepts in its current phase. The two
    /// terminal phases accept none.
    pub open spec fn accepts(self, event: Event) -> bool {
        match (self.spec_phase(), event) {
            (Phase::Unstarted, Event::Begin) => true,
            (Phase::Composing, Event::UnitAttached) => true,
            (Phase::Running, Event::RunReturned(_)) => true,
            _ => false,
        }
    }

    /// A fresh sequencer for one process invocation.
    pub fn new(mode: BuildMode) -> (s: Sequencer)
        ensures
            s.wf(),
            s.spec_mode() == mode,
            s.spec_phase() is Unstarted,
            s.spec_issued() == 0,
            s.spec_runs() == 0,
    {
        Sequencer { mode, phase: Phase::Unstarted, issued: 0, run_requests: 0 }
    }

    /// One decision step: consumes an event and announces the next action.
    ///
    /// Beginning announces the first unit of the mode's sequence, or the run
    /// loop at once when the mode attaches none. Each attached unit is
    /// followed by the next one, in order, until the sequence is exhausted;
    /// then the run loop is requested, exactly once. A normal run-loop return
    /// ends in `Exit`; a startup failure ends in `Abort` carrying the
    /// failure's message, with no retry.
    pub fn step(&mut self, event: Event) -> (action: Action)
        requires
            old(self).wf(),
            old(self).accepts(event),
        ensures
            final(self).wf(),
            final(self).spec_mode() == old(self).spec_mode(),
            action is Run ==> final(self).spec_runs() == old(self).spec_runs() + 1,
            !(action is Run) ==> final(self).spec_runs() == old(self).spec_runs(),
            action is Run ==> old(self).spec_runs() == 0 && final(self).spec_phase() is Running,
            old(self).spec_phase() is Unstarted ==> {
                let units = spec_units_for(old(self).spec_mode());
                &&& units.len() == 0 ==> action is Run && final(self).spec_issued() == 0
                &&& units.len() > 0 ==> {
                    &&& action == Action::Attach(units[0])
                    &&& final(self).spec_phase() is Composing
                    &&& final(self).spec_issued() == 1
                }
            },
            old(self).spec_phase() is Composing ==> {
                let units = spec_units_for(old(self).spec_mode());
                &&& old(self).spec_issued() < units.len() ==> {
                    &&& action == Action::Attach(units[old(self).spec_issued() as int])
                    &&& final(self).spec_phase() is Composing
                    &&& final(self).spec_issued() == old(self).spec_issued() + 1
                }
                &&& old(self).spec_issued() == units.len() ==> action is Run
            },
            old(self).spec_phase() is Running ==> (event matches Event::RunReturned(r) && {
                &&& r is Ok ==> action is Exit && final(self).spec_phase() is Finished
                &&& r matches Err(err) ==> {
                    &&& action matches Action::Abort(m) && m@ == err.message@
                    &&& final(self).spec_phase() is Aborted
                }
            }),
    {
        match event {
            Event::Begin => {
                let units = units_for(self.mode);
                if units.len() == 0 {
                    self.phase = Phase::Running;
                    self.run_requests = self.run_requests + 1;
                    Action::Run
                } else {
                    self.phase = Phase::Composing;
                    self.issued = 1;
                    let unit = units[0];
                    Action::Attach(unit)
                }
            },
            Event::UnitAttached => {
                let units = units_for(self.mode);
                if self.issued < units.len() {
                    let unit = units[self.issued];
                    self.issued = self.issued + 1;
                    Action::Attach(unit)
                } else {
                    self.phase = Phase::Running;
                    self.run_requests = self.run_requests + 1;
                    Action::Run
                }
            },
            Event::RunReturned(result) => {
                match result {
                    Ok(_) => {
                        self.phase = Phase::Finished;
                        Action::Exit
                    },
                    Err(err) => {
                        self.phase = Phase::Aborted;
                        Action::Abort(err.message)
                    },
                }
            },
        }
    }

    /// The build mode this sequencer was created with.
    pub fn mode(&self) -> (mode: BuildMode)
        ensures
            mode == self.spec_mode(),
    {
        self.mode
    }

    /// Where in its lifecycle the sequencer stands.
    pub fn phase(&self) -> (phase: Phase)
        ensures
            phase == self.spec_phase(),
    {
        self.phase
    }

    /// How many times the run loop has been requested.
    pub fn run_count(&self) -> (n: usize)
        ensures
            n == self.spec_runs(),
    {
        self.run_requests
    }
}

/// The run loop is entered exactly once per invocation, whatever the build
/// mode: any sequencer that has reached the running phase or either terminal
/// phase has requested the run loop exactly once, and `step` never requests
/// it from a state that has already requested it.
pub proof fn lemma_run_requested_exactly_once(s: Sequencer)
    requires
        s.wf(),
        s.spec_phase() is Running || s.spec_phase() is Finished || s.spec_phase() is Aborted,
    ensures
        s.spec_runs() == 1,
{
}

/// A startup failure is fatal and final: an aborted sequencer has already
/// used its single run request, and it accepts no further event, so the run
/// loop can never be requested again — there is no retry.
pub proof fn lemma_no_retry_after_abort(s: Sequencer, event: Event)
    requires
        s.wf(),
        s.spec_phase() is Aborted,
    ensures
        s.spec_runs() == 1,
        !s.accepts(event),
{
}

} // verus!
