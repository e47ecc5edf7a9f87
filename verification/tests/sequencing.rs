use bootstrap_sequencer::sequencer::Action;
use bootstrap_sequencer::sequencer::Event;
use bootstrap_sequencer::sequencer::Phase;
use bootstrap_sequencer::sequencer::Sequencer;
use bootstrap_sequencer::sequencer::StartupError;
use bootstrap_sequencer::units::BuildMode;
use bootstrap_sequencer::units::InitUnit;

/// Drives one full invocation with a stubbed run loop and records what was
/// observed: the units attached in order, how often the run loop was entered,
/// and the abort message, if startup failed.
fn drive(
    mode: BuildMode,
    run_result: Result<(), StartupError>,
) -> (Sequencer, Vec<InitUnit>, usize, Option<String>) {
    let mut sequencer = Sequencer::new(mode);
    let mut attached: Vec<InitUnit> = Vec::new();
    let mut runs: usize = 0;
    let mut run_result = Some(run_result);
    let mut abort_message: Option<String> = None;
    let mut action = sequencer.step(Event::Begin);
    loop {
        match action {
            Action::Attach(unit) => {
                attached.push(unit);
                action = sequencer.step(Event::UnitAttached);
            }
            Action::Run => {
                runs += 1;
                let result = run_result.take().expect("the run loop is entered at most once");
                action = sequencer.step(Event::RunReturned(result));
            }
            Action::Exit => break,
            Action::Abort(message) => {
                abort_message = Some(message);
                break;
            }
        }
    }
    (sequencer, attached, runs, abort_message)
}

#[test]
fn debug_success_attaches_both_units_then_runs() {
    let (sequencer, attached, runs, abort_message) = drive(BuildMode::Debug, Ok(()));
    assert_eq!(attached, vec![InitUnit::DevtoolsCore, InitUnit::DevtoolsAppBridge]);
    assert_eq!(runs, 1);
    assert_eq!(abort_message, None);
    assert_eq!(sequencer.phase(), Phase::Finished);
    assert_eq!(sequencer.run_count(), 1);
}

#[test]
fn release_failure_aborts_with_message_and_no_retry() {
    let error = StartupError { message: String::from("window creation failed") };
    let (sequencer, attached, runs, abort_message) = drive(BuildMode::Release, Err(error));
    assert_eq!(attached, Vec::<InitUnit>::new());
    assert_eq!(runs, 1);
    assert_eq!(abort_message, Some(String::from("window creation failed")));
    assert_eq!(sequencer.phase(), Phase::Aborted);
    assert_eq!(sequencer.run_count(), 1);
}

#[test]
fn release_success_runs_without_attaching() {
    let (sequencer, attached, runs, abort_message) = drive(BuildMode::Release, Ok(()));
    assert_eq!(attached, Vec::<InitUnit>::new());
    assert_eq!(runs, 1);
    assert_eq!(abort_message, None);
    assert_eq!(sequencer.phase(), Phase::Finished);
}

#[test]
fn debug_failure_propagates_the_failure_message() {
    let error = StartupError { message: String::from("ipc channel unavailable") };
    let (sequencer, attached, runs, abort_message) = drive(BuildMode::Debug, Err(error));
    assert_eq!(attached, vec![InitUnit::DevtoolsCore, InitUnit::DevtoolsAppBridge]);
    assert_eq!(runs, 1);
    assert_eq!(abort_message, Some(String::from("ipc channel unavailable")));
    assert_eq!(sequencer.phase(), Phase::Aborted);
    assert_eq!(sequencer.run_count(), 1);
}

#[test]
fn run_is_requested_exactly_once_in_either_mode() {
    let (_, _, debug_runs, _) = drive(BuildMode::Debug, Ok(()));
    let (_, _, release_runs, _) = drive(BuildMode::Release, Ok(()));
    assert_eq!(debug_runs, 1);
    assert_eq!(release_runs, 1);
}

#[test]
fn release_begin_requests_the_run_loop_at_once() {
    let mut sequencer = Sequencer::new(BuildMode::Release);
    assert_eq!(sequencer.phase(), Phase::Unstarted);
    let action = sequencer.step(Event::Begin);
    assert!(matches!(action, Action::Run));
    assert_eq!(sequencer.phase(), Phase::Running);
    assert_eq!(sequencer.mode(), BuildMode::Release);
}

#[test]
fn debug_begin_announces_the_core_unit_first() {
    let mut sequencer = Sequencer::new(BuildMode::Debug);
    let action = sequencer.step(Event::Begin);
    assert!(matches!(action, Action::Attach(InitUnit::DevtoolsCore)));
    assert_eq!(sequencer.phase(), Phase::Composing);
    assert_eq!(sequencer.run_count(), 0);
}
