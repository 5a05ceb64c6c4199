//! Setting up an interactive terminal step by step, and undoing every step again.
use vstd::prelude::*;

use crate::error::{AppError, SanitizedCause, TerminalError};
use crate::text::u64_text;

verus! {

/// State of one independently reversible terminal mutation.
#[derive(Clone, Copy, Debug, PartialEq, Eq, Structural)]
pub enum StepState {
    NotAttempted,
    AttemptedOrActive,
    Restored,
}

/// The states of all setup steps.
#[derive(Clone, Copy, Debug, PartialEq, Eq, Structural)]
pub struct TerminalStepStates {
    pub raw: StepState,
    pub alternate: StepState,
    pub mouse: StepState,
    pub cursor: StepState,
}

impl TerminalStepStates {
    /// Whether a step is still to be undone.
    pub open spec fn unresolved(self) -> bool {
        self.raw == StepState::AttemptedOrActive || self.alternate == StepState::AttemptedOrActive
            || self.mouse == StepState::AttemptedOrActive || self.cursor
            == StepState::AttemptedOrActive
    }

    pub open spec fn all_restored(self) -> bool {
        self.raw == StepState::Restored && self.alternate == StepState::Restored && self.mouse
            == StepState::Restored && self.cursor == StepState::Restored
    }

    pub open spec fn untouched() -> TerminalStepStates {
        TerminalStepStates {
            raw: StepState::NotAttempted,
            alternate: StepState::NotAttempted,
            mouse: StepState::NotAttempted,
            cursor: StepState::NotAttempted,
        }
    }
}

impl Default for TerminalStepStates {
    fn default() -> (states: Self)
        ensures
            states == TerminalStepStates::untouched(),
    {
        TerminalStepStates {
            raw: StepState::NotAttempted,
            alternate: StepState::NotAttempted,
            mouse: StepState::NotAttempted,
            cursor: StepState::NotAttempted,
        }
    }
}

/// How a terminal mutation went wrong: it reported a failure, or it panicked.
#[derive(Clone, Copy, Debug, PartialEq, Eq, Structural)]
pub enum DriverFault {
    Failed,
    Panicked,
}

impl DriverFault {
    pub open spec fn told_as(self) -> SanitizedCause {
        match self {
            DriverFault::Failed => SanitizedCause::Io,
            DriverFault::Panicked => SanitizedCause::Other,
        }
    }

    pub fn cause(self) -> (cause: SanitizedCause)
        ensures
            cause == self.told_as(),
    {
        match self {
            DriverFault::Failed => SanitizedCause::Io,
            DriverFault::Panicked => SanitizedCause::Other,
        }
    }
}

/// The terminal mutations and their inverses. Every inverse must be safe to retry, and safe where its
/// mutation may have changed the terminal before it failed.
pub trait TerminalDriver {
    fn enable_raw(&self) -> (outcome: Result<(), DriverFault>);

    fn enter_alternate(&self) -> (outcome: Result<(), DriverFault>);

    fn enable_mouse(&self) -> (outcome: Result<(), DriverFault>);

    fn hide_cursor(&self) -> (outcome: Result<(), DriverFault>);

    fn show_cursor(&self) -> (outcome: Result<(), DriverFault>);

    fn disable_mouse(&self) -> (outcome: Result<(), DriverFault>);

    fn leave_alternate(&self) -> (outcome: Result<(), DriverFault>);

    fn disable_raw(&self) -> (outcome: Result<(), DriverFault>);
}

/// The calls of a driver: each mutation, and the inverse of each.
#[derive(Clone, Copy, Debug, PartialEq, Eq, Structural)]
pub enum DriverOperation {
    EnableRaw,
    EnterAlternate,
    EnableMouse,
    HideCursor,
    ShowCursor,
    DisableMouse,
    LeaveAlternate,
    DisableRaw,
}

impl DriverOperation {
    /// The call that undoes what this one does.
    pub open spec fn undone_by(self) -> DriverOperation {
        match self {
            DriverOperation::EnableRaw => DriverOperation::DisableRaw,
            DriverOperation::EnterAlternate => DriverOperation::LeaveAlternate,
            DriverOperation::EnableMouse => DriverOperation::DisableMouse,
            DriverOperation::HideCursor => DriverOperation::ShowCursor,
            DriverOperation::ShowCursor => DriverOperation::HideCursor,
            DriverOperation::DisableMouse => DriverOperation::EnableMouse,
            DriverOperation::LeaveAlternate => DriverOperation::EnterAlternate,
            DriverOperation::DisableRaw => DriverOperation::EnableRaw,
        }
    }
}

/// A call that was made, and what went wrong in it.
pub struct DriverCall {
    pub operation: DriverOperation,
    pub fault: Option<DriverFault>,
}

/// What went wrong in a call that was answered so.
pub open spec fn fault_of(answer: Result<(), DriverFault>) -> Option<DriverFault> {
    match answer {
        Ok(()) => None,
        Err(fault) => Some(fault),
    }
}

/// What a driver answers where a call goes so.
pub open spec fn answer_of(fault: Option<DriverFault>) -> Result<(), DriverFault> {
    match fault {
        None => Ok(()),
        Some(fault) => Err(fault),
    }
}

/// Whether a driver, called for an operation, can give this answer.
pub open spec fn answers<D: TerminalDriver>(
    driver: D,
    operation: DriverOperation,
    answer: Result<(), DriverFault>,
) -> bool {
    match operation {
        DriverOperation::EnableRaw => call_ensures(D::enable_raw, (&driver,), answer),
        DriverOperation::EnterAlternate => call_ensures(D::enter_alternate, (&driver,), answer),
        DriverOperation::EnableMouse => call_ensures(D::enable_mouse, (&driver,), answer),
        DriverOperation::HideCursor => call_ensures(D::hide_cursor, (&driver,), answer),
        DriverOperation::ShowCursor => call_ensures(D::show_cursor, (&driver,), answer),
        DriverOperation::DisableMouse => call_ensures(D::disable_mouse, (&driver,), answer),
        DriverOperation::LeaveAlternate => call_ensures(D::leave_alternate, (&driver,), answer),
        DriverOperation::DisableRaw => call_ensures(D::disable_raw, (&driver,), answer),
    }
}

/// One failed best-effort inverse operation.
#[derive(Clone, Copy, Debug, PartialEq, Eq)]
pub struct CleanupFailure {
    pub operation: &'static str,
    pub cause: SanitizedCause,
}

/// Ordered failures from a complete reverse restoration pass.
#[derive(Debug, PartialEq, Eq)]
pub struct CleanupFailures(Vec<CleanupFailure>);

impl View for CleanupFailures {
    type V = Seq<CleanupFailure>;

    closed spec fn view(&self) -> Seq<CleanupFailure> {
        self.0@
    }
}

/// What comes after the number of steps that failed.
pub open spec fn failure_list(failures: Seq<CleanupFailure>) -> Seq<char>
    decreases failures.len(),
{
    if failures.len() == 0 {
        " step(s)"@
    } else {
        failure_list(failures.drop_last()) + "; "@ + failures.last().operation@ + ": "@
            + failures.last().cause.phrase()@
    }
}

impl CleanupFailures {
    pub fn new() -> (failures: CleanupFailures)
        ensures
            failures@ == Seq::<CleanupFailure>::empty(),
    {
        CleanupFailures(Vec::new())
    }

    pub fn failures(&self) -> (list: &[CleanupFailure])
        ensures
            list@ == self@,
    {
        self.0.as_slice()
    }

    pub fn is_empty(&self) -> (empty: bool)
        ensures
            empty == (self@.len() == 0),
    {
        self.0.len() == 0
    }

    fn push(&mut self, operation: &'static str, cause: SanitizedCause)
        ensures
            final(self)@ == old(self)@.push(CleanupFailure { operation, cause }),
    {
        self.0.push(CleanupFailure { operation, cause });
    }

    /// How many steps failed, and each with its cause.
    pub fn message(&self) -> (text: String)
        ensures
            text@ == cleanup_words(self@),
    {
        let mut list = " step(s)".to_owned();
        let mut index: usize = 0;
        assert(self.0@.take(0) =~= Seq::<CleanupFailure>::empty());
        while index < self.0.len()
            invariant
                index <= self.0@.len(),
                list@ == failure_list(self.0@.take(index as int)),
            decreases self.0@.len() - index,
        {
            let failure = self.0[index];
            list.append("; ");
            list.append(failure.operation);
            list.append(": ");
            list.append(failure.cause.as_str());
            assert(self.0@.take(index + 1).drop_last() =~= self.0@.take(index as int));
            index += 1;
        }
        assert(self.0@.take(index as int) =~= self.0@);
        let mut text = "terminal cleanup failed in ".to_owned();
        let count = u64_text(self.0.len() as u64);
        text.append(count.as_str());
        text.append(list.as_str());
        text
    }
}

impl Default for CleanupFailures {
    fn default() -> (failures: Self)
        ensures
            failures@ == Seq::<CleanupFailure>::empty(),
    {
        CleanupFailures::new()
    }
}

/// Returned-error precedence with cleanup retained as secondary evidence.
#[derive(Debug, PartialEq, Eq)]
pub enum TerminalLifecycleError {
    PrimaryWithCleanup { primary: AppError, cleanup: CleanupFailures },
    Primary(AppError),
    Cleanup(CleanupFailures),
}

/// What a cleanup says of itself.
pub open spec fn cleanup_words(failures: Seq<CleanupFailure>) -> Seq<char> {
    "terminal cleanup failed in "@ + crate::text::numeral(failures.len() as int) + failure_list(
        failures,
    )
}

impl TerminalLifecycleError {
    /// What the error says, where `primary` is what the error that goes first says of itself.
    pub fn message(&self, primary: &str) -> (text: String)
        ensures
            text@ == (match self {
                TerminalLifecycleError::PrimaryWithCleanup { cleanup, .. } => primary@
                    + "; secondary cleanup failure: "@ + cleanup_words(cleanup@),
                TerminalLifecycleError::Primary(_) => primary@,
                TerminalLifecycleError::Cleanup(cleanup) => cleanup_words(cleanup@),
            }),
    {
        match self {
            TerminalLifecycleError::PrimaryWithCleanup { cleanup, .. } => {
                let mut text = primary.to_owned();
                text.append("; secondary cleanup failure: ");
                let words = cleanup.message();
                text.append(words.as_str());
                text
            },
            TerminalLifecycleError::Primary(_) => primary.to_owned(),
            TerminalLifecycleError::Cleanup(cleanup) => cleanup.message(),
        }
    }
}

/// The failures of a restoration pass, where it had any.
pub open spec fn cleanup_of(pass: Result<(), CleanupFailures>) -> Option<CleanupFailures> {
    match pass {
        Ok(()) => None,
        Err(failures) => Some(failures),
    }
}

/// What is returned of an error and of a failed cleanup: the error goes first.
pub open spec fn outcome_of(primary: Option<AppError>, cleanup: Option<CleanupFailures>) -> Result<
    (),
    TerminalLifecycleError,
> {
    match (primary, cleanup) {
        (None, None) => Ok(()),
        (Some(primary), None) => Err(TerminalLifecycleError::Primary(primary)),
        (None, Some(cleanup)) => Err(TerminalLifecycleError::Cleanup(cleanup)),
        (Some(primary), Some(cleanup)) => Err(
            TerminalLifecycleError::PrimaryWithCleanup { primary, cleanup },
        ),
    }
}

pub fn conclude(primary: Option<AppError>, cleanup: Option<CleanupFailures>) -> (outcome: Result<
    (),
    TerminalLifecycleError,
>)
    ensures
        outcome == outcome_of(primary, cleanup),
{
    match (primary, cleanup) {
        (None, None) => Ok(()),
        (Some(primary), None) => Err(TerminalLifecycleError::Primary(primary)),
        (None, Some(cleanup)) => Err(TerminalLifecycleError::Cleanup(cleanup)),
        (Some(primary), Some(cleanup)) => Err(
            TerminalLifecycleError::PrimaryWithCleanup { primary, cleanup },
        ),
    }
}

/// How the setup calls go, for the steps that are reached.
#[derive(Clone, Copy, Debug, PartialEq, Eq, Structural)]
pub struct SetupOutcomes {
    pub raw: Option<DriverFault>,
    pub alternate: Option<DriverFault>,
    pub mouse: Option<DriverFault>,
    pub cursor: Option<DriverFault>,
}

/// The step at which setup stops, and what has been attempted by then.
pub open spec fn set_up(outcomes: SetupOutcomes) -> (TerminalStepStates, Option<&'static str>) {
    let raw = TerminalStepStates {
        raw: StepState::AttemptedOrActive,
        ..TerminalStepStates::untouched()
    };
    let alternate = TerminalStepStates { alternate: StepState::AttemptedOrActive, ..raw };
    let mouse = TerminalStepStates { mouse: StepState::AttemptedOrActive, ..alternate };
    let cursor = TerminalStepStates { cursor: StepState::AttemptedOrActive, ..mouse };
    if outcomes.raw is Some {
        (raw, Some("enable raw mode"))
    } else if outcomes.alternate is Some {
        (alternate, Some("enter alternate screen"))
    } else if outcomes.mouse is Some {
        (mouse, Some("enable mouse capture"))
    } else if outcomes.cursor is Some {
        (cursor, Some("hide cursor"))
    } else {
        (cursor, None)
    }
}

/// How the step at which setup stops goes wrong.
pub open spec fn stopped_by(outcomes: SetupOutcomes) -> Option<DriverFault> {
    if outcomes.raw is Some {
        outcomes.raw
    } else if outcomes.alternate is Some {
        outcomes.alternate
    } else if outcomes.mouse is Some {
        outcomes.mouse
    } else {
        outcomes.cursor
    }
}

/// The calls that setup makes: raw mode, alternate screen, mouse, cursor, up to the first that goes
/// wrong.
pub open spec fn setup_calls(outcomes: SetupOutcomes) -> Seq<DriverCall> {
    let raw = seq![DriverCall { operation: DriverOperation::EnableRaw, fault: outcomes.raw }];
    let alternate = raw.push(
        DriverCall { operation: DriverOperation::EnterAlternate, fault: outcomes.alternate },
    );
    let mouse = alternate.push(
        DriverCall { operation: DriverOperation::EnableMouse, fault: outcomes.mouse },
    );
    if outcomes.raw is Some {
        raw
    } else if outcomes.alternate is Some {
        alternate
    } else if outcomes.mouse is Some {
        mouse
    } else {
        mouse.push(DriverCall { operation: DriverOperation::HideCursor, fault: outcomes.cursor })
    }
}

/// Whether the setup calls that are reached go as a driver answers them.
pub open spec fn applies<D: TerminalDriver>(driver: D, outcomes: SetupOutcomes) -> bool {
    &&& answers(driver, DriverOperation::EnableRaw, answer_of(outcomes.raw))
    &&& outcomes.raw is None ==> answers(
        driver,
        DriverOperation::EnterAlternate,
        answer_of(outcomes.alternate),
    )
    &&& outcomes.raw is None && outcomes.alternate is None ==> answers(
        driver,
        DriverOperation::EnableMouse,
        answer_of(outcomes.mouse),
    )
    &&& outcomes.raw is None && outcomes.alternate is None && outcomes.mouse is None ==> answers(
        driver,
        DriverOperation::HideCursor,
        answer_of(outcomes.cursor),
    )
}

pub open spec fn failed_setup(operation: &'static str) -> AppError {
    AppError::Terminal(TerminalError::Setup { operation, cause: SanitizedCause::Io })
}

fn setup_error(operation: &'static str) -> (error: AppError)
    ensures
        error == failed_setup(operation),
{
    AppError::Terminal(TerminalError::Setup { operation, cause: SanitizedCause::Io })
}

/// Whether states and a result are what setup leaves where its calls go so.
pub open spec fn sets_up(
    outcomes: SetupOutcomes,
    states: TerminalStepStates,
    result: Result<(), AppError>,
) -> bool {
    states == set_up(outcomes).0 && result == (match set_up(outcomes).1 {
        None => Ok::<(), AppError>(()),
        Some(operation) => Err(failed_setup(operation)),
    })
}

/// Whether states and a stop are what the setup calls leave where they go so.
pub open spec fn stops(
    outcomes: SetupOutcomes,
    states: TerminalStepStates,
    stop: Option<(&'static str, DriverFault)>,
) -> bool {
    states == set_up(outcomes).0 && match stop {
        None => set_up(outcomes).1 is None,
        Some((operation, fault)) => set_up(outcomes).1 == Some(operation) && stopped_by(outcomes)
            == Some(fault),
    }
}

/// How the inverse calls go, for the steps that are to be undone.
#[derive(Clone, Copy, Debug, PartialEq, Eq, Structural)]
pub struct RestoreOutcomes {
    pub cursor: Option<DriverFault>,
    pub mouse: Option<DriverFault>,
    pub alternate: Option<DriverFault>,
    pub raw: Option<DriverFault>,
}

pub open spec fn step_after(state: StepState, fault: Option<DriverFault>) -> StepState {
    if state == StepState::AttemptedOrActive && fault is None {
        StepState::Restored
    } else {
        state
    }
}

pub open spec fn step_failure(
    state: StepState,
    operation: &'static str,
    fault: Option<DriverFault>,
) -> Seq<CleanupFailure> {
    match fault {
        Some(fault) => if state == StepState::AttemptedOrActive {
            seq![CleanupFailure { operation, cause: fault.told_as() }]
        } else {
            Seq::empty()
        },
        None => Seq::empty(),
    }
}

/// The states after a restoration pass.
pub open spec fn restored(states: TerminalStepStates, outcomes: RestoreOutcomes) -> TerminalStepStates {
    TerminalStepStates {
        raw: step_after(states.raw, outcomes.raw),
        alternate: step_after(states.alternate, outcomes.alternate),
        mouse: step_after(states.mouse, outcomes.mouse),
        cursor: step_after(states.cursor, outcomes.cursor),
    }
}

/// The failures of a restoration pass: cursor, mouse, alternate screen, raw mode.
pub open spec fn pass_failures(states: TerminalStepStates, outcomes: RestoreOutcomes) -> Seq<
    CleanupFailure,
> {
    step_failure(states.cursor, "show cursor", outcomes.cursor) + step_failure(
        states.mouse,
        "disable mouse capture",
        outcomes.mouse,
    ) + step_failure(states.alternate, "leave alternate screen", outcomes.alternate) + step_failure(
        states.raw,
        "disable raw mode",
        outcomes.raw,
    )
}

pub open spec fn step_call(
    state: StepState,
    operation: DriverOperation,
    fault: Option<DriverFault>,
) -> Seq<DriverCall> {
    if state == StepState::AttemptedOrActive {
        seq![DriverCall { operation, fault }]
    } else {
        Seq::empty()
    }
}

/// The calls of a restoration pass: the inverse of each step that is to be undone, cursor, mouse,
/// alternate screen, raw mode.
pub open spec fn pass_calls(states: TerminalStepStates, outcomes: RestoreOutcomes) -> Seq<
    DriverCall,
> {
    step_call(states.cursor, DriverOperation::ShowCursor, outcomes.cursor) + step_call(
        states.mouse,
        DriverOperation::DisableMouse,
        outcomes.mouse,
    ) + step_call(states.alternate, DriverOperation::LeaveAlternate, outcomes.alternate)
        + step_call(states.raw, DriverOperation::DisableRaw, outcomes.raw)
}

/// Whether the inverse calls of the steps that are to be undone go as a driver answers them.
pub open spec fn undoes<D: TerminalDriver>(
    driver: D,
    states: TerminalStepStates,
    outcomes: RestoreOutcomes,
) -> bool {
    &&& states.cursor == StepState::AttemptedOrActive ==> answers(
        driver,
        DriverOperation::ShowCursor,
        answer_of(outcomes.cursor),
    )
    &&& states.mouse == StepState::AttemptedOrActive ==> answers(
        driver,
        DriverOperation::DisableMouse,
        answer_of(outcomes.mouse),
    )
    &&& states.alternate == StepState::AttemptedOrActive ==> answers(
        driver,
        DriverOperation::LeaveAlternate,
        answer_of(outcomes.alternate),
    )
    &&& states.raw == StepState::AttemptedOrActive ==> answers(
        driver,
        DriverOperation::DisableRaw,
        answer_of(outcomes.raw),
    )
}

/// Whether states and a result are what a restoration pass leaves where the inverse calls go so.
pub open spec fn restores(
    before: TerminalStepStates,
    outcomes: RestoreOutcomes,
    after: TerminalStepStates,
    result: Result<(), CleanupFailures>,
) -> bool {
    after == restored(before, outcomes) && (match result {
        Ok(()) => pass_failures(before, outcomes).len() == 0,
        Err(failures) => failures@ == pass_failures(before, outcomes) && failures@.len() > 0,
    })
}

/// Books the outcome of one inverse call.
fn restore_step(
    state: &mut StepState,
    operation: &'static str,
    failures: &mut CleanupFailures,
    outcome: Result<(), DriverFault>,
) -> (fault: Option<DriverFault>)
    requires
        *old(state) == StepState::AttemptedOrActive,
    ensures
        fault == fault_of(outcome),
        *final(state) == step_after(*old(state), fault),
        final(failures)@ == old(failures)@ + step_failure(*old(state), operation, fault),
{
    match outcome {
        Ok(()) => {
            *state = StepState::Restored;
            assert(failures@ =~= old(failures)@ + Seq::<CleanupFailure>::empty());
            None
        },
        Err(fault) => {
            failures.push(operation, fault.cause());
            assert(failures@ =~= old(failures)@ + step_failure(
                *old(state),
                operation,
                Some(fault),
            ));
            Some(fault)
        },
    }
}

/// Whether a failed setup is undone in a second pass too. After a panic, which is to go on, there is one
/// pass alone.
pub open spec fn undone_twice(tried: SetupOutcomes) -> bool {
    stopped_by(tried) != Some(DriverFault::Panicked)
}

/// Whether an entry ends so, where the setup calls go as `tried`, and the inverse calls of a setup
/// that failed go as `undone` in a first pass and, where there is a second, as `again` in that.
pub open spec fn enters<D: TerminalDriver>(
    driver: D,
    tried: SetupOutcomes,
    undone: RestoreOutcomes,
    again: RestoreOutcomes,
    pass: Result<(), CleanupFailures>,
    entry: Result<(), TerminalLifecycleError>,
) -> bool {
    let (begun, stopped) = set_up(tried);
    &&& applies(driver, tried)
    &&& match stopped {
        None => entry == Ok::<(), TerminalLifecycleError>(()),
        Some(operation) => {
            &&& undoes(driver, begun, undone)
            &&& restores(begun, undone, restored(begun, undone), pass)
            &&& undone_twice(tried) ==> undoes(driver, restored(begun, undone), again)
            &&& entry == outcome_of(Some(failed_setup(operation)), cleanup_of(pass))
        },
    }
}

/// The states that such an entry leaves.
pub open spec fn entry_states(
    tried: SetupOutcomes,
    undone: RestoreOutcomes,
    again: RestoreOutcomes,
) -> TerminalStepStates {
    let (begun, stopped) = set_up(tried);
    if stopped is None {
        begun
    } else if undone_twice(tried) {
        restored(restored(begun, undone), again)
    } else {
        restored(begun, undone)
    }
}

/// The calls that such an entry makes.
pub open spec fn entry_calls(
    tried: SetupOutcomes,
    undone: RestoreOutcomes,
    again: RestoreOutcomes,
) -> Seq<DriverCall> {
    let (begun, stopped) = set_up(tried);
    if stopped is None {
        setup_calls(tried)
    } else if undone_twice(tried) {
        setup_calls(tried) + pass_calls(begun, undone) + pass_calls(restored(begun, undone), again)
    } else {
        setup_calls(tried) + pass_calls(begun, undone)
    }
}

/// Whether a session ends so, where its inverse calls go as `outcomes` in a first pass and as `again`
/// in a second.
pub open spec fn finishes<D: TerminalDriver>(
    driver: D,
    states: TerminalStepStates,
    outcomes: RestoreOutcomes,
    again: RestoreOutcomes,
    pass: Result<(), CleanupFailures>,
    primary: Option<AppError>,
    outcome: Result<(), TerminalLifecycleError>,
) -> bool {
    &&& undoes(driver, states, outcomes)
    &&& restores(states, outcomes, restored(states, outcomes), pass)
    &&& undoes(driver, restored(states, outcomes), again)
    &&& outcome == outcome_of(primary, cleanup_of(pass))
}

/// What else is done in the course of a session, each with how many calls of the driver were made
/// before it.
pub enum Turn {
    InputClosed(nat),
    ProducerCancelled(nat),
}

/// An entered or partially entered terminal transaction.
pub struct TerminalSession<D: TerminalDriver> {
    driver: D,
    states: TerminalStepStates,
    calls: Ghost<Seq<DriverCall>>,
    turns: Ghost<Seq<Turn>>,
}

impl<D: TerminalDriver> TerminalSession<D> {
    pub closed spec fn steps(self) -> TerminalStepStates {
        self.states
    }

    pub closed spec fn terminal(self) -> D {
        self.driver
    }

    /// The calls that the session has made of its driver, in order.
    pub closed spec fn calls(self) -> Seq<DriverCall> {
        self.calls@
    }

    /// What else has been done in the course of the session, in order.
    pub closed spec fn turns(self) -> Seq<Turn> {
        self.turns@
    }

    /// A session that has not touched its terminal.
    pub fn new(driver: D) -> (session: TerminalSession<D>)
        ensures
            session.steps() == TerminalStepStates::untouched(),
            session.terminal() == driver,
            session.calls() == Seq::<DriverCall>::empty(),
            session.turns() == Seq::<Turn>::empty(),
    {
        TerminalSession {
            driver,
            states: TerminalStepStates::default(),
            calls: Ghost(Seq::empty()),
            turns: Ghost(Seq::empty()),
        }
    }

    /// Makes one call of the driver.
    fn call(&mut self, operation: DriverOperation) -> (outcome: Result<(), DriverFault>)
        ensures
            answers(old(self).terminal(), operation, answer_of(fault_of(outcome))),
            final(self).terminal() == old(self).terminal(),
            final(self).turns() == old(self).turns(),
            final(self).steps() == old(self).steps(),
            final(self).calls() == old(self).calls().push(
                DriverCall { operation, fault: fault_of(outcome) },
            ),
    {
        let outcome = match operation {
            DriverOperation::EnableRaw => self.driver.enable_raw(),
            DriverOperation::EnterAlternate => self.driver.enter_alternate(),
            DriverOperation::EnableMouse => self.driver.enable_mouse(),
            DriverOperation::HideCursor => self.driver.hide_cursor(),
            DriverOperation::ShowCursor => self.driver.show_cursor(),
            DriverOperation::DisableMouse => self.driver.disable_mouse(),
            DriverOperation::LeaveAlternate => self.driver.leave_alternate(),
            DriverOperation::DisableRaw => self.driver.disable_raw(),
        };
        self.calls = Ghost(self.calls@.push(DriverCall { operation, fault: fault_of(outcome) }));
        proof {
            if let Ok(done) = outcome {
                assert(done == ());
            }
        }
        outcome
    }

    /// Closes the input.
    fn close_input<C: FnOnce()>(&mut self, close: C)
        requires
            call_requires(close, ()),
        ensures
            call_ensures(close, (), ()),
            final(self).terminal() == old(self).terminal(),
            final(self).steps() == old(self).steps(),
            final(self).calls() == old(self).calls(),
            final(self).turns() == old(self).turns().push(
                Turn::InputClosed(old(self).calls().len()),
            ),
    {
        close();
        self.turns = Ghost(self.turns@.push(Turn::InputClosed(self.calls@.len())));
    }

    /// Cancels the producer.
    fn cancel_producer<X: FnOnce()>(&mut self, cancel: X)
        requires
            call_requires(cancel, ()),
        ensures
            call_ensures(cancel, (), ()),
            final(self).terminal() == old(self).terminal(),
            final(self).steps() == old(self).steps(),
            final(self).calls() == old(self).calls(),
            final(self).turns() == old(self).turns().push(
                Turn::ProducerCancelled(old(self).calls().len()),
            ),
    {
        cancel();
        self.turns = Ghost(self.turns@.push(Turn::ProducerCancelled(self.calls@.len())));
    }

    /// Applies raw → alternate → mouse → cursor, marking uncertainty before every call. Where a step
    /// fails, what was attempted is undone, and what could not be undone is tried once more, unless the
    /// step panicked.
    pub fn enter(driver: D) -> (session: Result<TerminalSession<D>, TerminalLifecycleError>)
        ensures
            exists|
                tried: SetupOutcomes,
                undone: RestoreOutcomes,
                again: RestoreOutcomes,
                pass: Result<(), CleanupFailures>,
                entry: Result<(), TerminalLifecycleError>,
            | #[trigger]
                enters(driver, tried, undone, again, pass, entry) && (match session {
                    Ok(session) => entry is Ok && session.terminal() == driver && session.turns()
                        == Seq::<Turn>::empty() && session.steps() == entry_states(tried, undone, again) && session.calls() == entry_calls(
                        tried,
                        undone,
                        again,
                    ),
                    Err(error) => entry == Err::<(), TerminalLifecycleError>(error),
                }),
    {
        let mut session = TerminalSession::new(driver);
        let entry = session.begin();
        proof {
            let (tried, undone, again, pass) = choose|
                tried: SetupOutcomes,
                undone: RestoreOutcomes,
                again: RestoreOutcomes,
                pass: Result<(), CleanupFailures>,
            | #[trigger]
                enters(driver, tried, undone, again, pass, entry) && session.steps()
                    == entry_states(tried, undone, again) && session.calls() == Seq::<
                    DriverCall,
                >::empty() + entry_calls(tried, undone, again);
            assert(session.calls() =~= entry_calls(tried, undone, again));
            assert(enters(driver, tried, undone, again, pass, entry));
        }
        match entry {
            Ok(()) => Ok(session),
            Err(error) => Err(error),
        }
    }

    /// Sets up an untouched terminal. Where a step fails, what was attempted is undone, and what could
    /// not be undone is tried once more, unless the step panicked.
    pub fn begin(&mut self) -> (entry: Result<(), TerminalLifecycleError>)
        requires
            old(self).steps() == TerminalStepStates::untouched(),
        ensures
            final(self).terminal() == old(self).terminal(),
            final(self).turns() == old(self).turns(),
            exists|
                tried: SetupOutcomes,
                undone: RestoreOutcomes,
                again: RestoreOutcomes,
                pass: Result<(), CleanupFailures>,
            | #[trigger]
                enters(old(self).terminal(), tried, undone, again, pass, entry)
                    && final(self).steps() == entry_states(tried, undone, again)
                    && final(self).calls() == old(self).calls() + entry_calls(tried, undone, again),
    {
        let ghost driver = self.terminal();
        let ghost calls = self.calls();
        let stop = self.apply_steps();
        let ghost begun = self.steps();
        let ghost tried = choose|tried: SetupOutcomes| #[trigger]
            stops(tried, begun, stop) && applies(driver, tried) && self.calls() == calls
                + setup_calls(tried);
        match stop {
            None => {
                let ghost undone = RestoreOutcomes {
                    cursor: None,
                    mouse: None,
                    alternate: None,
                    raw: None,
                };
                let entry = Ok(());
                assert(enters(driver, tried, undone, undone, Ok(()), entry));
                entry
            },
            Some((operation, fault)) => {
                let twice = match fault {
                    DriverFault::Panicked => false,
                    DriverFault::Failed => true,
                };
                let (pass, Ghost(undone), Ghost(again)) = self.restore_or_retry(twice);
                let ghost kept = pass;
                proof {
                    assert(self.calls() =~= calls + entry_calls(tried, undone, again));
                }
                let primary = setup_error(operation);
                let entry = match pass {
                    Ok(()) => Err(TerminalLifecycleError::Primary(primary)),
                    Err(cleanup) => Err(
                        TerminalLifecycleError::PrimaryWithCleanup { primary, cleanup },
                    ),
                };
                assert(enters(driver, tried, undone, again, kept, entry));
                entry
            },
        }
    }

    /// Sets up an untouched terminal, up to the first call that fails.
    pub fn setup(&mut self) -> (result: Result<(), AppError>)
        requires
            old(self).steps() == TerminalStepStates::untouched(),
        ensures
            final(self).terminal() == old(self).terminal(),
            final(self).turns() == old(self).turns(),
            exists|outcomes: SetupOutcomes| #[trigger]
                sets_up(outcomes, final(self).steps(), result) && applies(
                    old(self).terminal(),
                    outcomes,
                ) && final(self).calls() == old(self).calls() + setup_calls(outcomes),
    {
        let ghost driver = self.terminal();
        let ghost calls = self.calls();
        let stop = self.apply_steps();
        let ghost tried = choose|tried: SetupOutcomes| #[trigger]
            stops(tried, self.steps(), stop) && applies(driver, tried) && self.calls() == calls
                + setup_calls(tried);
        let result = match stop {
            None => Ok(()),
            Some((operation, _)) => Err(setup_error(operation)),
        };
        assert(sets_up(tried, self.steps(), result));
        result
    }

    /// Makes the setup calls, up to the first that fails, and says which it was and how it failed.
    fn apply_steps(&mut self) -> (stop: Option<(&'static str, DriverFault)>)
        requires
            old(self).steps() == TerminalStepStates::untouched(),
        ensures
            final(self).terminal() == old(self).terminal(),
            final(self).turns() == old(self).turns(),
            exists|outcomes: SetupOutcomes| #[trigger]
                stops(outcomes, final(self).steps(), stop) && applies(
                    old(self).terminal(),
                    outcomes,
                ) && final(self).calls() == old(self).calls() + setup_calls(outcomes),
    {
        let ghost calls = self.calls();
        let ghost mut tried = SetupOutcomes {
            raw: None,
            alternate: None,
            mouse: None,
            cursor: None,
        };
        self.states.raw = StepState::AttemptedOrActive;
        let raw = self.call(DriverOperation::EnableRaw);
        proof {
            tried = SetupOutcomes { raw: fault_of(raw), ..tried };
        }
        if let Err(fault) = raw {
            let stop = Some(("enable raw mode", fault));
            assert(self.calls() =~= calls + setup_calls(tried));
            assert(stops(tried, self.states, stop));
            return stop;
        }
        self.states.alternate = StepState::AttemptedOrActive;
        let alternate = self.call(DriverOperation::EnterAlternate);
        proof {
            tried = SetupOutcomes { alternate: fault_of(alternate), ..tried };
        }
        if let Err(fault) = alternate {
            let stop = Some(("enter alternate screen", fault));
            assert(self.calls() =~= calls + setup_calls(tried));
            assert(stops(tried, self.states, stop));
            return stop;
        }
        self.states.mouse = StepState::AttemptedOrActive;
        let mouse = self.call(DriverOperation::EnableMouse);
        proof {
            tried = SetupOutcomes { mouse: fault_of(mouse), ..tried };
        }
        if let Err(fault) = mouse {
            let stop = Some(("enable mouse capture", fault));
            assert(self.calls() =~= calls + setup_calls(tried));
            assert(stops(tried, self.states, stop));
            return stop;
        }
        self.states.cursor = StepState::AttemptedOrActive;
        let cursor = self.call(DriverOperation::HideCursor);
        proof {
            tried = SetupOutcomes { cursor: fault_of(cursor), ..tried };
        }
        if let Err(fault) = cursor {
            let stop = Some(("hide cursor", fault));
            assert(self.calls() =~= calls + setup_calls(tried));
            assert(stops(tried, self.states, stop));
            return stop;
        }
        let stop = None;
        assert(self.calls() =~= calls + setup_calls(tried));
        assert(stops(tried, self.states, stop));
        stop
    }

    pub fn states(&self) -> (states: TerminalStepStates)
        ensures
            states == self.steps(),
    {
        self.states
    }

    pub fn driver(&self) -> (driver: &D)
        ensures
            *driver == self.terminal(),
    {
        &self.driver
    }

    /// Attempts cursor → mouse → alternate → raw without short-circuiting.
    pub fn restore(&mut self) -> (result: Result<(), CleanupFailures>)
        ensures
            final(self).terminal() == old(self).terminal(),
            final(self).turns() == old(self).turns(),
            exists|outcomes: RestoreOutcomes| #[trigger]
                restores(old(self).steps(), outcomes, final(self).steps(), result) && undoes(
                    old(self).terminal(),
                    old(self).steps(),
                    outcomes,
                ) && final(self).calls() == old(self).calls() + pass_calls(
                    old(self).steps(),
                    outcomes,
                ),
    {
        let mut failures = CleanupFailures::new();
        let ghost driver = self.terminal();
        let ghost before = self.states;
        let ghost calls = self.calls();
        let mut cursor: Option<DriverFault> = None;
        let mut mouse: Option<DriverFault> = None;
        let mut alternate: Option<DriverFault> = None;
        let mut raw: Option<DriverFault> = None;
        if self.states.cursor == StepState::AttemptedOrActive {
            let outcome = self.call(DriverOperation::ShowCursor);
            cursor = restore_step(&mut self.states.cursor, "show cursor", &mut failures, outcome);
        }
        assert(failures@ =~= step_failure(before.cursor, "show cursor", cursor));
        assert(self.calls() =~= calls + step_call(
            before.cursor,
            DriverOperation::ShowCursor,
            cursor,
        ));
        let ghost first = failures@;
        let ghost shown = self.calls();
        if self.states.mouse == StepState::AttemptedOrActive {
            let outcome = self.call(DriverOperation::DisableMouse);
            mouse = restore_step(
                &mut self.states.mouse,
                "disable mouse capture",
                &mut failures,
                outcome,
            );
        }
        assert(failures@ =~= first + step_failure(before.mouse, "disable mouse capture", mouse));
        assert(self.calls() =~= shown + step_call(
            before.mouse,
            DriverOperation::DisableMouse,
            mouse,
        ));
        let ghost second = failures@;
        let ghost disabled = self.calls();
        if self.states.alternate == StepState::AttemptedOrActive {
            let outcome = self.call(DriverOperation::LeaveAlternate);
            alternate = restore_step(
                &mut self.states.alternate,
                "leave alternate screen",
                &mut failures,
                outcome,
            );
        }
        assert(failures@ =~= second + step_failure(
            before.alternate,
            "leave alternate screen",
            alternate,
        ));
        assert(self.calls() =~= disabled + step_call(
            before.alternate,
            DriverOperation::LeaveAlternate,
            alternate,
        ));
        let ghost third = failures@;
        let ghost left = self.calls();
        if self.states.raw == StepState::AttemptedOrActive {
            let outcome = self.call(DriverOperation::DisableRaw);
            raw = restore_step(&mut self.states.raw, "disable raw mode", &mut failures, outcome);
        }
        assert(failures@ =~= third + step_failure(before.raw, "disable raw mode", raw));
        assert(self.calls() =~= left + step_call(before.raw, DriverOperation::DisableRaw, raw));
        let ghost outcomes = RestoreOutcomes { cursor, mouse, alternate, raw };
        assert(failures@ == pass_failures(before, outcomes));
        assert(self.states == restored(before, outcomes));
        assert(self.calls() =~= calls + pass_calls(before, outcomes));
        let result = if failures.is_empty() {
            Ok(())
        } else {
            Err(failures)
        };
        assert(undoes(driver, before, outcomes));
        assert(restores(before, outcomes, self.states, result));
        result
    }

    /// Restores the terminal and, where it is asked for, tries once more what could not be restored:
    /// what counts is how the first pass went.
    fn restore_or_retry(&mut self, twice: bool) -> (done: (
        Result<(), CleanupFailures>,
        Ghost<RestoreOutcomes>,
        Ghost<RestoreOutcomes>,
    ))
        ensures
            final(self).terminal() == old(self).terminal(),
            final(self).turns() == old(self).turns(),
            ({
                let (pass, outcomes, again) = (done.0, done.1@, done.2@);
                let between = restored(old(self).steps(), outcomes);
                let first = old(self).calls() + pass_calls(old(self).steps(), outcomes);
                &&& restores(old(self).steps(), outcomes, between, pass)
                &&& undoes(old(self).terminal(), old(self).steps(), outcomes)
                &&& if twice {
                    &&& undoes(old(self).terminal(), between, again)
                    &&& final(self).steps() == restored(between, again)
                    &&& final(self).calls() == first + pass_calls(between, again)
                } else {
                    final(self).steps() == between && final(self).calls() == first
                }
            }),
    {
        let ghost driver = self.terminal();
        let ghost before = self.steps();
        let ghost calls = self.calls();
        let pass = self.restore();
        let ghost between = self.steps();
        let ghost made = self.calls();
        let ghost outcomes = choose|outcomes: RestoreOutcomes| #[trigger]
            restores(before, outcomes, between, pass) && undoes(driver, before, outcomes) && made
                == calls + pass_calls(before, outcomes);
        if !twice {
            return (pass, Ghost(outcomes), Ghost(outcomes));
        }
        let retry = self.restore();
        let ghost again = choose|again: RestoreOutcomes| #[trigger]
            restores(between, again, self.steps(), retry) && undoes(driver, between, again)
                && self.calls() == made + pass_calls(between, again);
        (pass, Ghost(outcomes), Ghost(again))
    }

    /// Restores the terminal, and tries once more what could not be restored. An error goes before
    /// what failed in the first restoration.
    pub fn finish(self, primary: Option<AppError>) -> (outcome: Result<
        (),
        TerminalLifecycleError,
    >)
        ensures
            exists|
                outcomes: RestoreOutcomes,
                again: RestoreOutcomes,
                pass: Result<(), CleanupFailures>,
            | #[trigger]
                finishes(
                    self.terminal(),
                    self.steps(),
                    outcomes,
                    again,
                    pass,
                    primary,
                    outcome,
                ),
    {
        let mut session = self;
        session.wind_up(primary)
    }

    /// Restores the terminal as `finish` does, and keeps the session.
    pub fn wind_up(&mut self, primary: Option<AppError>) -> (outcome: Result<
        (),
        TerminalLifecycleError,
    >)
        ensures
            final(self).terminal() == old(self).terminal(),
            final(self).turns() == old(self).turns(),
            exists|
                outcomes: RestoreOutcomes,
                again: RestoreOutcomes,
                pass: Result<(), CleanupFailures>,
            | #[trigger]
                finishes(
                    old(self).terminal(),
                    old(self).steps(),
                    outcomes,
                    again,
                    pass,
                    primary,
                    outcome,
                ) && final(self).steps() == restored(restored(old(self).steps(), outcomes), again)
                    && final(self).calls() == old(self).calls() + pass_calls(
                    old(self).steps(),
                    outcomes,
                ) + pass_calls(restored(old(self).steps(), outcomes), again),
    {
        let ghost driver = self.terminal();
        let ghost before = self.steps();
        let (pass, Ghost(outcomes), Ghost(again)) = self.restore_or_retry(true);
        let ghost kept = pass;
        let ghost first = primary;
        let cleanup = match pass {
            Ok(()) => None,
            Err(failures) => Some(failures),
        };
        let outcome = conclude(primary, cleanup);
        assert(finishes(driver, before, outcomes, again, kept, first, outcome));
        outcome
    }

    /// Restores the terminal before something is waited for that may never come: only once every
    /// step is restored may the wait begin.
    pub fn restore_fully(&mut self) -> (result: Result<(), CleanupFailures>)
        ensures
            final(self).terminal() == old(self).terminal(),
            final(self).turns() == old(self).turns(),
            exists|outcomes: RestoreOutcomes, pass: Result<(), CleanupFailures>| #[trigger]
                restores(old(self).steps(), outcomes, final(self).steps(), pass) && undoes(
                    old(self).terminal(),
                    old(self).steps(),
                    outcomes,
                ) && final(self).calls() == old(self).calls() + pass_calls(
                    old(self).steps(),
                    outcomes,
                ) && fully(final(self).steps(), pass, result),
    {
        let pass = self.restore();
        let ghost after = self.steps();
        match pass {
            Err(failures) => {
                let result = Err(failures);
                assert(fully(after, pass, result));
                result
            },
            Ok(()) => {
                let states = self.states;
                if states.raw != StepState::Restored || states.alternate != StepState::Restored
                    || states.mouse != StepState::Restored || states.cursor
                    != StepState::Restored {
                    let mut failures = CleanupFailures::new();
                    failures.push("verify terminal restoration", SanitizedCause::Other);
                    let result = Err(failures);
                    assert(fully(after, pass, result));
                    return result;
                }
                let result = Ok(());
                assert(fully(after, pass, result));
                result
            },
        }
    }
}

/// What a restoration that must be complete makes of a pass: a step that was never attempted is no
/// restored step.
pub open spec fn fully(
    after: TerminalStepStates,
    pass: Result<(), CleanupFailures>,
    result: Result<(), CleanupFailures>,
) -> bool {
    match pass {
        Err(failures) => result == Err::<(), CleanupFailures>(failures),
        Ok(()) => if after.all_restored() {
            result == Ok::<(), CleanupFailures>(())
        } else {
            result matches Err(failures) && failures@ =~= seq![
                CleanupFailure {
                    operation: "verify terminal restoration",
                    cause: SanitizedCause::Other,
                },
            ]
        },
    }
}

/// Sets a terminal up only where both ends are terminals. Otherwise no driver is made: `setup` need
/// not even be ready to be called.
pub fn enter_with_tty_preflight<D: TerminalDriver, F: FnOnce() -> D>(
    stdin_is_terminal: bool,
    stdout_is_terminal: bool,
    setup: F,
) -> (session: Result<TerminalSession<D>, TerminalLifecycleError>)
    requires
        stdin_is_terminal && stdout_is_terminal ==> call_requires(setup, ()),
    ensures
        stdin_is_terminal && stdout_is_terminal ==> exists|driver: D| #[trigger]
            call_ensures(setup, (), driver) && call_ensures(
                TerminalSession::<D>::enter,
                (driver,),
                session,
            ),
        !(stdin_is_terminal && stdout_is_terminal) <==> session == Err::<
            TerminalSession<D>,
            TerminalLifecycleError,
        >(TerminalLifecycleError::Primary(AppError::Terminal(TerminalError::TtyRequired))),
{
    if !stdin_is_terminal || !stdout_is_terminal {
        return Err(
            TerminalLifecycleError::Primary(AppError::Terminal(TerminalError::TtyRequired)),
        );
    }
    TerminalSession::enter(setup())
}

/// Shutdown order: input closes and cancellation fires, then every terminal step must be restored
/// before a possibly non-cooperating producer is joined. Where the cleanup fails, nothing is joined.
/// Each of the three need be ready only once its turn has come: cancelling once the input is closed,
/// joining once the producer is cancelled and all that was done to the terminal is undone. The input
/// is closed and the producer cancelled, once each, before the driver is called.
pub fn restore_before_join<
    D: TerminalDriver,
    C: FnOnce(),
    X: FnOnce(),
    J: FnOnce() -> T,
    T,
>(
    session: &mut TerminalSession<D>,
    close_input: C,
    cancel_producer: X,
    join_producer: J,
) -> (joined: Result<T, CleanupFailures>)
    requires
        call_requires(close_input, ()),
        call_ensures(close_input, (), ()) ==> call_requires(cancel_producer, ()),
        call_ensures(cancel_producer, (), ()) && final(session).steps().all_restored()
            ==> call_requires(join_producer, ()),
    ensures
        call_ensures(close_input, (), ()),
        call_ensures(cancel_producer, (), ()),
        final(session).terminal() == old(session).terminal(),
        final(session).turns() == old(session).turns().push(
            Turn::InputClosed(old(session).calls().len()),
        ).push(Turn::ProducerCancelled(old(session).calls().len())),
        exists|outcomes: RestoreOutcomes, pass: Result<(), CleanupFailures>| #[trigger]
            restores(old(session).steps(), outcomes, final(session).steps(), pass) && undoes(
                old(session).terminal(),
                old(session).steps(),
                outcomes,
            ) && final(session).calls() == old(session).calls() + pass_calls(
                old(session).steps(),
                outcomes,
            ) && fully(
                final(session).steps(),
                pass,
                match joined {
                    Ok(_) => Ok(()),
                    Err(failures) => Err(failures),
                },
            ),
        joined matches Ok(value) ==> final(session).steps().all_restored() && call_ensures(
            join_producer,
            (),
            value,
        ),
{
    session.close_input(close_input);
    session.cancel_producer(cancel_producer);
    match session.restore_fully() {
        Ok(()) => Ok(join_producer()),
        Err(failures) => Err(failures),
    }
}

/// A restoration pass reports a failure exactly where a step remains to be undone.
pub proof fn law_pass_reports_what_remains(states: TerminalStepStates, outcomes: RestoreOutcomes)
    ensures
        pass_failures(states, outcomes).len() == 0 <==> !restored(states, outcomes).unresolved(),
{
}

/// A step that has been restored, or was never attempted, is left alone by every later pass, which
/// makes no call for it; one that has not is retried.
pub proof fn law_only_unresolved_steps_are_retried(
    states: TerminalStepStates,
    first: RestoreOutcomes,
    second: RestoreOutcomes,
)
    ensures
        !restored(states, first).unresolved() ==> restored(restored(states, first), second)
            == restored(states, first) && pass_failures(restored(states, first), second).len() == 0
            && pass_calls(restored(states, first), second).len() == 0,
        second == (RestoreOutcomes { cursor: None, mouse: None, alternate: None, raw: None })
            ==> !restored(restored(states, first), second).unresolved(),
{
}

/// Whatever step setup stops at, a pass in which all goes well leaves nothing to be undone, and steps
/// that were not reached stay untouched.
pub proof fn law_failed_setup_can_be_undone(tried: SetupOutcomes)
    ensures
        ({
            let undone = restored(
                set_up(tried).0,
                RestoreOutcomes { cursor: None, mouse: None, alternate: None, raw: None },
            );
            &&& !undone.unresolved()
            &&& undone.raw == StepState::Restored
            &&& tried.raw is Some ==> undone.alternate == StepState::NotAttempted
            &&& tried.raw is Some || tried.alternate is Some ==> undone.mouse
                == StepState::NotAttempted
            &&& tried.raw is Some || tried.alternate is Some || tried.mouse is Some
                ==> undone.cursor == StepState::NotAttempted
        }),
{
}

/// The first pass after setup calls the inverse of every call that setup made, the one that failed
/// too, once each and in reverse order, whatever becomes of them.
pub proof fn law_undoing_reverses_setup(tried: SetupOutcomes, undone: RestoreOutcomes, place: int)
    ensures
        pass_calls(set_up(tried).0, undone).len() == setup_calls(tried).len(),
        0 <= place < setup_calls(tried).len() ==> pass_calls(set_up(tried).0, undone)[place].operation
            == setup_calls(tried)[setup_calls(tried).len() - 1 - place].operation.undone_by(),
{
}

/// An entry succeeds exactly where all four setup calls do. It has then called nothing else.
pub proof fn law_entry_succeeds_with_its_calls<D: TerminalDriver>(
    driver: D,
    tried: SetupOutcomes,
    undone: RestoreOutcomes,
    again: RestoreOutcomes,
    pass: Result<(), CleanupFailures>,
    entry: Result<(), TerminalLifecycleError>,
)
    requires
        enters(driver, tried, undone, again, pass, entry),
    ensures
        entry is Ok <==> tried.raw is None && tried.alternate is None && tried.mouse is None
            && tried.cursor is None,
        entry is Ok ==> entry_calls(tried, undone, again) == setup_calls(tried) && setup_calls(
            tried,
        ).len() == 4,
{
}

/// What setup attempts: raw mode first, each further step only where all before it went well, and
/// every step that is attempted by one call of its own, in this order. It stops at the first call that
/// goes wrong, names that step and its fault, and leaves every later step untouched.
pub proof fn law_setup_goes_step_by_step(tried: SetupOutcomes)
    ensures
        ({
            let (states, stop) = set_up(tried);
            let calls = setup_calls(tried);
            let active = StepState::AttemptedOrActive;
            let untouched = StepState::NotAttempted;
            &&& states.raw == active
            &&& calls[0].operation == DriverOperation::EnableRaw && calls[0].fault == tried.raw
            &&& tried.raw is Some <==> states.alternate == untouched
            &&& tried.raw is Some <==> calls.len() == 1
            &&& tried.raw is None ==> states.alternate == active && calls[1].operation
                == DriverOperation::EnterAlternate && calls[1].fault == tried.alternate
            &&& states.alternate == active && tried.alternate is None <==> states.mouse == active
            &&& states.mouse == active ==> calls[2].operation == DriverOperation::EnableMouse
                && calls[2].fault == tried.mouse
            &&& states.mouse == active && tried.mouse is None <==> states.cursor == active
            &&& states.cursor == active ==> calls.len() == 4 && calls[3].operation
                == DriverOperation::HideCursor && calls[3].fault == tried.cursor
            &&& states.mouse == untouched || states.mouse == active
            &&& states.cursor == untouched || states.cursor == active
            &&& stop is None <==> calls.last().fault is None
            &&& stop is Some ==> stopped_by(tried) == calls.last().fault
            &&& forall|i: int| 0 <= i < calls.len() - 1 ==> (#[trigger] calls[i]).fault is None
            &&& calls.len() == 1 ==> (stop matches Some(step) && step@ == "enable raw mode"@)
            &&& calls.len() == 2 ==> (stop matches Some(step) && step@ == "enter alternate screen"@)
            &&& calls.len() == 3 ==> (stop matches Some(step) && step@ == "enable mouse capture"@)
            &&& calls.len() == 4 ==> (stop matches Some(step) ==> step@ == "hide cursor"@)
        }),
{
}

/// What a pass does to one step: where it is to be undone, it is restored if its inverse goes well,
/// and otherwise stays and is reported with its cause; where it is not, nothing is called for it and
/// nothing changes.
pub proof fn law_passes_undo_each_step(states: TerminalStepStates, outcomes: RestoreOutcomes)
    ensures
        ({
            let after = restored(states, outcomes);
            let active = StepState::AttemptedOrActive;
            &&& states.raw == active && outcomes.raw is None ==> after.raw == StepState::Restored
            &&& states.alternate == active && outcomes.alternate is None ==> after.alternate
                == StepState::Restored
            &&& states.mouse == active && outcomes.mouse is None ==> after.mouse
                == StepState::Restored
            &&& states.cursor == active && outcomes.cursor is None ==> after.cursor
                == StepState::Restored
            &&& states.raw != active || outcomes.raw is Some ==> after.raw == states.raw
            &&& states.alternate != active || outcomes.alternate is Some ==> after.alternate
                == states.alternate
            &&& states.mouse != active || outcomes.mouse is Some ==> after.mouse == states.mouse
            &&& states.cursor != active || outcomes.cursor is Some ==> after.cursor == states.cursor
        }),
        DriverFault::Failed.told_as() == SanitizedCause::Io,
        DriverFault::Panicked.told_as() == SanitizedCause::Other,
{
}

/// A pass over all four steps calls for each of them, the cursor first and raw mode last, whatever
/// goes wrong on the way; and reports each fault, in that order, under the name of its step.
pub proof fn law_passes_go_through(
    states: TerminalStepStates,
    outcomes: RestoreOutcomes,
    fault: DriverFault,
)
    requires
        states.raw == StepState::AttemptedOrActive,
        states.alternate == StepState::AttemptedOrActive,
        states.mouse == StepState::AttemptedOrActive,
        states.cursor == StepState::AttemptedOrActive,
    ensures
        ({
            let calls = pass_calls(states, outcomes);
            &&& calls.len() == 4
            &&& calls[0].operation == DriverOperation::ShowCursor && calls[0].fault
                == outcomes.cursor
            &&& calls[1].operation == DriverOperation::DisableMouse && calls[1].fault
                == outcomes.mouse
            &&& calls[2].operation == DriverOperation::LeaveAlternate && calls[2].fault
                == outcomes.alternate
            &&& calls[3].operation == DriverOperation::DisableRaw && calls[3].fault == outcomes.raw
        }),
        outcomes == (RestoreOutcomes {
            cursor: Some(fault),
            mouse: Some(fault),
            alternate: Some(fault),
            raw: Some(fault),
        }) ==> {
            let failures = pass_failures(states, outcomes);
            &&& failures.len() == 4
            &&& failures[0].operation@ == "show cursor"@
            &&& failures[1].operation@ == "disable mouse capture"@
            &&& failures[2].operation@ == "leave alternate screen"@
            &&& failures[3].operation@ == "disable raw mode"@
            &&& forall|i: int| 0 <= i < 4 ==> (#[trigger] failures[i]).cause == fault.told_as()
        },
        outcomes == (RestoreOutcomes { cursor: None, mouse: Some(fault), alternate: None, raw: None })
            ==> {
            let failures = pass_failures(states, outcomes);
            &&& failures.len() == 1
            &&& failures[0].operation@ == "disable mouse capture"@
            &&& failures[0].cause == fault.told_as()
        },
{
}

/// What is returned: nothing but success where nothing went wrong; an error alone or a failed cleanup
/// alone where only one did; and where both did, the error first, with the cleanup kept.
pub proof fn law_errors_go_before_cleanups(primary: AppError, cleanup: CleanupFailures)
    ensures
        outcome_of(None, None) is Ok,
        outcome_of(Some(primary), None) == Err::<(), TerminalLifecycleError>(
            TerminalLifecycleError::Primary(primary),
        ),
        outcome_of(None, Some(cleanup)) == Err::<(), TerminalLifecycleError>(
            TerminalLifecycleError::Cleanup(cleanup),
        ),
        outcome_of(Some(primary), Some(cleanup)) == Err::<(), TerminalLifecycleError>(
            TerminalLifecycleError::PrimaryWithCleanup { primary, cleanup },
        ),
{
}

/// A cleanup says how many steps failed, and then each of them with its cause, in order.
pub proof fn law_cleanups_say_what_failed(failures: Seq<CleanupFailure>, next: CleanupFailure)
    ensures
        cleanup_words(Seq::empty()) == "terminal cleanup failed in "@ + seq!['0'] + " step(s)"@,
        failure_list(failures.push(next)) == failure_list(failures) + seq![';', ' ']
            + next.operation@ + seq![':', ' '] + next.cause.phrase()@,
        cleanup_words(failures) == "terminal cleanup failed in "@ + crate::text::numeral(
            failures.len() as int,
        ) + failure_list(failures),
{
    reveal_strlit("; ");
    reveal_strlit(": ");
    assert(failures.push(next).drop_last() =~= failures);
    assert("; "@ =~= seq![';', ' ']);
    assert(": "@ =~= seq![':', ' ']);
    assert(crate::text::numeral(0) =~= seq!['0']);
}

/// An entry that fails undoes what it did: once where a call panicked, and in a second pass over what
/// is left where it merely failed. It ends with the error of the step at which it stopped.
pub proof fn law_failed_entries_are_undone<D: TerminalDriver>(
    driver: D,
    tried: SetupOutcomes,
    undone: RestoreOutcomes,
    again: RestoreOutcomes,
    pass: Result<(), CleanupFailures>,
    entry: Result<(), TerminalLifecycleError>,
)
    requires
        enters(driver, tried, undone, again, pass, entry),
        set_up(tried).1 is Some,
    ensures
        ({
            let calls = entry_calls(tried, undone, again);
            let made = setup_calls(tried).len();
            let panicked = setup_calls(tried).last().fault == Some(DriverFault::Panicked);
            let clean = RestoreOutcomes { cursor: None, mouse: None, alternate: None, raw: None };
            &&& calls.len() >= 2 * made
            &&& calls.take(made as int) == setup_calls(tried)
            &&& panicked ==> calls.len() == 2 * made
            &&& undone == clean ==> calls.len() == 2 * made && !entry_states(
                tried,
                undone,
                again,
            ).unresolved()
            &&& !panicked && again == clean ==> !entry_states(tried, undone, again).unresolved()
            &&& entry matches Err(TerminalLifecycleError::Primary(AppError::Terminal(error)))
                ==> error == (TerminalError::Setup {
                operation: set_up(tried).1->0,
                cause: SanitizedCause::Io,
            })
            &&& entry is Err
        }),
{
    let calls = entry_calls(tried, undone, again);
    let made = setup_calls(tried).len();
    assert(calls.take(made as int) =~= setup_calls(tried));
    law_undoing_reverses_setup(tried, undone, 0);
}

/// A terminal counts as fully restored exactly where no inverse call failed and each of the four steps
/// was undone; otherwise the failures are told, or that something is left.
pub proof fn law_what_is_left_is_told(
    after: TerminalStepStates,
    pass: Result<(), CleanupFailures>,
    result: Result<(), CleanupFailures>,
)
    requires
        fully(after, pass, result),
    ensures
        result is Ok <==> pass is Ok && after.raw == StepState::Restored && after.alternate
            == StepState::Restored && after.mouse == StepState::Restored && after.cursor
            == StepState::Restored,
        pass is Err ==> result == pass,
        pass is Ok && result is Err ==> result->Err_0@.len() == 1,
{
}

/// How a session ends: well, exactly where it brought no error of its own and every inverse call that
/// was made went well; else with its own error first, and with what failed of the cleanup.
pub proof fn law_sessions_end_with_their_errors<D: TerminalDriver>(
    driver: D,
    states: TerminalStepStates,
    outcomes: RestoreOutcomes,
    again: RestoreOutcomes,
    pass: Result<(), CleanupFailures>,
    primary: Option<AppError>,
    outcome: Result<(), TerminalLifecycleError>,
)
    requires
        finishes(driver, states, outcomes, again, pass, primary, outcome),
    ensures
        outcome is Ok <==> primary is None && pass is Ok,
        pass is Ok <==> pass_failures(states, outcomes).len() == 0,
        undoes(driver, states, outcomes),
{
}

/// Whether an operation of a driver may end in a fault, or without one.
pub open spec fn may_end<D: TerminalDriver>(
    driver: D,
    operation: DriverOperation,
    fault: Option<DriverFault>,
) -> bool {
    match fault {
        None => answers(driver, operation, Ok(())),
        Some(told) => answers(driver, operation, Err(told)),
    }
}

/// Every outcome of a setup is the driver's own answer to the call of its step: to the first step in
/// any case, and to a further one where those before it went well. Every outcome of a pass is the
/// driver's answer to the inverse call of its step, for each step that is to be undone.
pub proof fn law_outcomes_are_answers<D: TerminalDriver>(
    driver: D,
    tried: SetupOutcomes,
    states: TerminalStepStates,
    undone: RestoreOutcomes,
)
    ensures
        applies(driver, tried) ==> {
            &&& may_end(driver, DriverOperation::EnableRaw, tried.raw)
            &&& tried.raw is None ==> may_end(
                driver,
                DriverOperation::EnterAlternate,
                tried.alternate,
            )
            &&& tried.raw is None && tried.alternate is None ==> may_end(
                driver,
                DriverOperation::EnableMouse,
                tried.mouse,
            )
            &&& tried.raw is None && tried.alternate is None && tried.mouse is None ==> may_end(
                driver,
                DriverOperation::HideCursor,
                tried.cursor,
            )
        },
        undoes(driver, states, undone) ==> {
            &&& states.cursor is AttemptedOrActive ==> may_end(
                driver,
                DriverOperation::ShowCursor,
                undone.cursor,
            )
            &&& states.mouse is AttemptedOrActive ==> may_end(
                driver,
                DriverOperation::DisableMouse,
                undone.mouse,
            )
            &&& states.alternate is AttemptedOrActive ==> may_end(
                driver,
                DriverOperation::LeaveAlternate,
                undone.alternate,
            )
            &&& states.raw is AttemptedOrActive ==> may_end(
                driver,
                DriverOperation::DisableRaw,
                undone.raw,
            )
        },
{
}

/// A setup succeeds exactly where no call of it failed, and stops with the fault of the call that
/// did, of which no earlier one failed.
pub proof fn law_setups_stop_at_the_first_fault(
    tried: SetupOutcomes,
    states: TerminalStepStates,
    result: Result<(), AppError>,
    stop: Option<(&'static str, DriverFault)>,
)
    requires
        sets_up(tried, states, result),
        stops(tried, states, stop),
    ensures
        ({
            let well = tried.raw is None && tried.alternate is None && tried.mouse is None
                && tried.cursor is None;
            &&& result is Ok <==> well
            &&& stop is None <==> well
            &&& stop matches Some((operation, fault)) ==> (result matches Err(
                AppError::Terminal(TerminalError::Setup { operation: told, .. }),
            ) && told == operation)
            &&& tried.raw is Some ==> (stop matches Some((_, fault)) && Some(fault) == tried.raw)
            &&& tried.raw is None && tried.alternate is Some ==> (stop matches Some((_, fault))
                && Some(fault) == tried.alternate)
            &&& tried.raw is None && tried.alternate is None && tried.mouse is Some ==> (
            stop matches Some((_, fault)) && Some(fault) == tried.mouse)
            &&& tried.raw is None && tried.alternate is None && tried.mouse is None
                && tried.cursor is Some ==> (stop matches Some((_, fault)) && Some(fault)
                == tried.cursor)
        }),
{
}

} // verus!
