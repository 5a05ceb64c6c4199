use std::sync::{Arc, Mutex};

use fccli::error::{AppError, SanitizedCause, TerminalError};
use fccli::terminal::{
    conclude, enter_with_tty_preflight, restore_before_join, CleanupFailures, DriverFault,
    StepState, TerminalDriver, TerminalLifecycleError, TerminalSession, TerminalStepStates,
};

#[derive(Default)]
struct PanicTrace {
    calls: Vec<&'static str>,
    panic_once: Vec<&'static str>,
    fail_always: Vec<&'static str>,
}

struct PanickingDriver(Arc<Mutex<PanicTrace>>);

impl PanickingDriver {
    fn call(&self, operation: &'static str) -> Result<(), DriverFault> {
        let mut trace = self
            .0
            .lock()
            .unwrap_or_else(|poisoned| poisoned.into_inner());
        trace.calls.push(operation);
        if trace.fail_always.contains(&operation) {
            return Err(DriverFault::Failed);
        }
        let should_panic = trace
            .panic_once
            .iter()
            .position(|candidate| *candidate == operation)
            .map(|index| trace.panic_once.remove(index))
            .is_some();
        if should_panic {
            return Err(DriverFault::Panicked);
        }
        Ok(())
    }
}

impl TerminalDriver for PanickingDriver {
    fn enable_raw(&self) -> Result<(), DriverFault> {
        self.call("raw+")
    }
    fn enter_alternate(&self) -> Result<(), DriverFault> {
        self.call("alternate+")
    }
    fn enable_mouse(&self) -> Result<(), DriverFault> {
        self.call("mouse+")
    }
    fn hide_cursor(&self) -> Result<(), DriverFault> {
        self.call("cursor-")
    }
    fn show_cursor(&self) -> Result<(), DriverFault> {
        self.call("cursor+")
    }
    fn disable_mouse(&self) -> Result<(), DriverFault> {
        self.call("mouse-")
    }
    fn leave_alternate(&self) -> Result<(), DriverFault> {
        self.call("alternate-")
    }
    fn disable_raw(&self) -> Result<(), DriverFault> {
        self.call("raw-")
    }
}

fn driver(panic_once: Vec<&'static str>) -> (PanickingDriver, Arc<Mutex<PanicTrace>>) {
    let trace = Arc::new(Mutex::new(PanicTrace {
        panic_once,
        ..PanicTrace::default()
    }));
    (PanickingDriver(Arc::clone(&trace)), trace)
}

fn failing(fail_always: Vec<&'static str>) -> (PanickingDriver, Arc<Mutex<PanicTrace>>) {
    let trace = Arc::new(Mutex::new(PanicTrace {
        fail_always,
        ..PanicTrace::default()
    }));
    (PanickingDriver(Arc::clone(&trace)), trace)
}

fn calls(trace: &Arc<Mutex<PanicTrace>>) -> Vec<&'static str> {
    trace
        .lock()
        .unwrap_or_else(|poisoned| poisoned.into_inner())
        .calls
        .clone()
}

fn operations(failures: &CleanupFailures) -> Vec<(&'static str, SanitizedCause)> {
    failures
        .failures()
        .iter()
        .map(|failure| (failure.operation, failure.cause))
        .collect()
}

fn entered(driver: PanickingDriver) -> TerminalSession<PanickingDriver> {
    match TerminalSession::enter(driver) {
        Ok(session) => session,
        Err(_) => panic!("setup failed"),
    }
}

#[test]
fn explicit_restore_aggregates_every_inverse_panic_and_retries_unresolved_steps() {
    let (driver, trace) = driver(vec!["cursor+", "mouse-", "alternate-", "raw-"]);
    let mut session = entered(driver);
    let failures = session.restore().unwrap_err();
    assert_eq!(
        operations(&failures),
        [
            ("show cursor", SanitizedCause::Other),
            ("disable mouse capture", SanitizedCause::Other),
            ("leave alternate screen", SanitizedCause::Other),
            ("disable raw mode", SanitizedCause::Other),
        ]
    );
    assert_eq!(session.states().cursor, StepState::AttemptedOrActive);
    assert_eq!(session.states().mouse, StepState::AttemptedOrActive);
    assert_eq!(session.states().alternate, StepState::AttemptedOrActive);
    assert_eq!(session.states().raw, StepState::AttemptedOrActive);
    session.restore().unwrap();
    assert_eq!(
        &calls(&trace)[4..],
        [
            "cursor+",
            "mouse-",
            "alternate-",
            "raw-",
            "cursor+",
            "mouse-",
            "alternate-",
            "raw-"
        ]
    );
}

#[test]
fn setup_runs_in_order_and_a_restored_session_is_left_alone() {
    let (driver, trace) = driver(vec![]);
    let mut session = entered(driver);
    assert_eq!(calls(&trace), ["raw+", "alternate+", "mouse+", "cursor-"]);
    session.restore().unwrap();
    session.restore().unwrap();
    assert_eq!(calls(&trace).len(), 8);
    assert_eq!(
        session.states(),
        TerminalStepStates {
            raw: StepState::Restored,
            alternate: StepState::Restored,
            mouse: StepState::Restored,
            cursor: StepState::Restored,
        }
    );
}

#[test]
fn a_failed_setup_step_undoes_what_was_attempted() {
    let (driver, trace) = failing(vec!["mouse+"]);
    match TerminalSession::enter(driver) {
        Ok(_) => panic!("mouse capture cannot be enabled"),
        Err(error) => assert_eq!(
            error,
            TerminalLifecycleError::Primary(AppError::Terminal(TerminalError::Setup {
                operation: "enable mouse capture",
                cause: SanitizedCause::Io,
            }))
        ),
    }
    assert_eq!(
        calls(&trace),
        ["raw+", "alternate+", "mouse+", "mouse-", "alternate-", "raw-"]
    );
}

#[test]
fn a_failed_setup_and_a_failed_cleanup_are_both_told() {
    let (driver, _trace) = failing(vec!["alternate+", "raw-"]);
    match TerminalSession::enter(driver) {
        Err(TerminalLifecycleError::PrimaryWithCleanup { primary, cleanup }) => {
            assert_eq!(
                primary,
                AppError::Terminal(TerminalError::Setup {
                    operation: "enter alternate screen",
                    cause: SanitizedCause::Io,
                })
            );
            assert_eq!(
                operations(&cleanup),
                [("disable raw mode", SanitizedCause::Io)]
            );
            assert_eq!(
                cleanup.message(),
                "terminal cleanup failed in 1 step(s); disable raw mode: I/O failure"
            );
        }
        _ => panic!("both failures are told"),
    }
}

#[test]
fn finish_puts_the_primary_error_first() {
    let (driver, _trace) = driver(vec![]);
    assert_eq!(entered(driver).finish(None), Ok(()));
    let (driver, _trace) = failing(vec!["cursor+"]);
    match entered(driver).finish(Some(AppError::Invariant("primary"))) {
        Err(TerminalLifecycleError::PrimaryWithCleanup { primary, cleanup }) => {
            assert_eq!(primary, AppError::Invariant("primary"));
            assert_eq!(operations(&cleanup), [("show cursor", SanitizedCause::Io)]);
        }
        _ => panic!("both failures are told"),
    }
    assert_eq!(
        conclude(Some(AppError::Invariant("alone")), None),
        Err(TerminalLifecycleError::Primary(AppError::Invariant("alone")))
    );
    assert_eq!(
        conclude(None, Some(CleanupFailures::default())),
        Err(TerminalLifecycleError::Cleanup(CleanupFailures::new()))
    );
    assert!(CleanupFailures::default().is_empty());
}

#[test]
fn what_could_not_be_undone_is_tried_once_more() {
    let (driver, trace) = failing(vec!["mouse+", "alternate-"]);
    assert!(TerminalSession::enter(driver).is_err());
    assert_eq!(
        calls(&trace),
        ["raw+", "alternate+", "mouse+", "mouse-", "alternate-", "raw-", "alternate-"]
    );

    let (driver, trace) = self::driver(vec!["mouse-", "raw-"]);
    match entered(driver).finish(None) {
        Err(TerminalLifecycleError::Cleanup(cleanup)) => assert_eq!(
            operations(&cleanup),
            [
                ("disable mouse capture", SanitizedCause::Other),
                ("disable raw mode", SanitizedCause::Other),
            ]
        ),
        _ => panic!("the first pass is told"),
    }
    assert_eq!(
        &calls(&trace)[4..],
        ["cursor+", "mouse-", "alternate-", "raw-", "mouse-", "raw-"]
    );
}

#[test]
fn a_step_that_panics_is_undone_in_one_pass() {
    let trace = Arc::new(Mutex::new(PanicTrace {
        panic_once: vec!["mouse+"],
        fail_always: vec!["alternate-"],
        ..PanicTrace::default()
    }));
    assert!(TerminalSession::enter(PanickingDriver(Arc::clone(&trace))).is_err());
    assert_eq!(
        calls(&trace),
        ["raw+", "alternate+", "mouse+", "mouse-", "alternate-", "raw-"]
    );
}

#[test]
fn the_input_closes_and_the_producer_is_cancelled_before_the_terminal_is_restored() {
    let (driver, trace) = driver(vec![]);
    let mut session = entered(driver);
    let note = |word: &'static str| trace.lock().unwrap().calls.push(word);
    let joined = restore_before_join(
        &mut session,
        || note("close"),
        || note("cancel"),
        || note("join"),
    );
    assert_eq!(joined, Ok(()));
    assert_eq!(
        &calls(&trace)[4..],
        ["close", "cancel", "cursor+", "mouse-", "alternate-", "raw-", "join"]
    );
}

#[test]
fn a_failed_step_undoes_itself_and_all_before_it() {
    let forward = ["raw+", "alternate+", "mouse+", "cursor-"];
    let inverse = ["raw-", "alternate-", "mouse-", "cursor+"];
    let operation = [
        "enable raw mode",
        "enter alternate screen",
        "enable mouse capture",
        "hide cursor",
    ];
    for step in 0..4 {
        let (driver, trace) = failing(vec![forward[step]]);
        match TerminalSession::enter(driver) {
            Ok(_) => panic!("a step failed"),
            Err(error) => assert_eq!(
                error,
                TerminalLifecycleError::Primary(AppError::Terminal(TerminalError::Setup {
                    operation: operation[step],
                    cause: SanitizedCause::Io,
                }))
            ),
        }
        let mut expected = forward[..=step].to_vec();
        expected.extend(inverse[..=step].iter().rev());
        assert_eq!(calls(&trace), expected);
    }
}

#[test]
fn a_session_can_begin_and_wind_up_in_place() {
    let (driver, trace) = failing(vec!["raw-"]);
    let mut session = TerminalSession::new(driver);
    assert_eq!(session.begin(), Ok(()));
    assert!(session.wind_up(None).is_err());
    assert_eq!(
        &calls(&trace)[4..],
        ["cursor+", "mouse-", "alternate-", "raw-", "raw-"]
    );
    assert_eq!(session.states().raw, StepState::AttemptedOrActive);
    assert_eq!(session.states().cursor, StepState::Restored);
}

#[test]
fn a_lifecycle_error_tells_the_primary_error_first() {
    let (driver, _trace) = failing(vec!["cursor+"]);
    let error = entered(driver)
        .finish(Some(AppError::Invariant("primary")))
        .unwrap_err();
    assert_eq!(
        error.message("it broke"),
        "it broke; secondary cleanup failure: terminal cleanup failed in 1 step(s); \
         show cursor: I/O failure"
    );
    assert_eq!(
        TerminalLifecycleError::Primary(AppError::Invariant("primary")).message("it broke"),
        "it broke"
    );
    assert_eq!(
        TerminalLifecycleError::Cleanup(CleanupFailures::new()).message(""),
        "terminal cleanup failed in 0 step(s)"
    );
}

#[test]
fn nothing_is_set_up_where_an_end_is_no_terminal() {
    for (stdin, stdout) in [(false, false), (false, true), (true, false)] {
        let (driver, trace) = driver(vec![]);
        match enter_with_tty_preflight(stdin, stdout, move || driver) {
            Ok(_) => panic!("no terminal"),
            Err(error) => assert_eq!(
                error,
                TerminalLifecycleError::Primary(AppError::Terminal(TerminalError::TtyRequired))
            ),
        }
        assert!(calls(&trace).is_empty());
    }
    let (driver, trace) = driver(vec![]);
    assert!(enter_with_tty_preflight(true, true, move || driver).is_ok());
    assert_eq!(calls(&trace).len(), 4);
}

#[test]
fn nothing_is_joined_before_every_step_is_restored() {
    let order = Mutex::new(Vec::new());
    let (driver, _trace) = failing(vec!["raw-"]);
    let mut session = entered(driver);
    let joined = restore_before_join(
        &mut session,
        || order.lock().unwrap().push("close"),
        || order.lock().unwrap().push("cancel"),
        || {
            order.lock().unwrap().push("join");
            7
        },
    );
    assert_eq!(
        operations(&joined.unwrap_err()),
        [("disable raw mode", SanitizedCause::Io)]
    );
    assert_eq!(*order.lock().unwrap(), ["close", "cancel"]);

    let (driver, _trace) = self::driver(vec![]);
    let mut session = entered(driver);
    assert_eq!(
        restore_before_join(&mut session, || {}, || {}, || 7),
        Ok(7)
    );

    let (driver, _trace) = self::driver(vec![]);
    let mut untouched = TerminalSession::new(driver);
    assert_eq!(
        operations(&restore_before_join(&mut untouched, || {}, || {}, || 7).unwrap_err()),
        [("verify terminal restoration", SanitizedCause::Other)]
    );
}
