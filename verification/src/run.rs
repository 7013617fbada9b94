//! The run orchestration.
//!
//! One run loads the configuration, brings the broker session up, sends the
//! one alert, and tears the session down.  [`run_step`] is the decision core:
//! it maps the run's state and the outcome of the last stage to the next
//! state and the next stage to perform.  The caller performs the stages (file
//! read, broker handshake, HTTP POST) and reports back.  A configuration or
//! broker failure aborts the run; a failed delivery transport aborts it too,
//! but only after the session is torn down; a webhook rejection is observed
//! and logged, never fatal.

use vstd::prelude::*;
use crate::config::ConfigError;
use crate::config::Configuration;
use crate::broker::BrokerError;
use crate::notify::DeliveryResult;
use crate::notify::NotifyError;

verus! {

/// The single failure a run surfaces, wrapping whichever stage broke.
#[derive(Debug, Clone, Copy, PartialEq, Eq, Structural)]
pub enum FatalError {
    /// The configuration could not be loaded.
    ConfigFailure(ConfigError),
    /// The broker session never became ready.
    BrokerFailure(BrokerError),
    /// The notification could not be delivered at all.
    NotifyFailure(NotifyError),
}

/// How a run ended.
#[derive(Debug, Clone, Copy, PartialEq, Eq, Structural)]
pub enum RunOutcome {
    /// Every stage ran; the delivery outcome (acknowledged or rejected) is
    /// carried along.  The process exits successfully either way.
    Completed(DeliveryResult),
    /// A stage failed and the rest were skipped.
    Aborted(FatalError),
}

/// Where the run stands.
#[derive(Debug, Clone, PartialEq, Eq)]
pub enum RunState {
    /// Nothing has happened yet.
    Idle,
    /// The configuration is being loaded.
    LoadingConfig,
    /// The broker session is being brought up for this configuration.
    StartingSession(Configuration),
    /// The alert is being sent to the configuration's webhook.
    SendingAlert(Configuration),
    /// The session is being torn down; the decided outcome is kept.
    TearingDown(RunOutcome),
    /// The run is over.
    Done(RunOutcome),
}

/// What the caller observed or requests.
#[derive(Debug, Clone, PartialEq, Eq)]
pub enum RunEvent {
    /// The process started.
    Started,
    /// The configuration was loaded.
    ConfigLoaded(Configuration),
    /// Loading the configuration failed.
    ConfigFailed(ConfigError),
    /// The broker session is ready.
    SessionReady,
    /// The broker session failed before becoming ready.
    SessionFailed(BrokerError),
    /// The webhook answered; here is the interpreted delivery outcome.
    Delivered(DeliveryResult),
    /// The POST to the webhook never completed.
    DeliveryFailed(NotifyError),
    /// The session teardown finished.
    TornDown,
}

/// The next stage the caller must perform, if any.
#[derive(Debug, Clone, Copy, PartialEq, Eq, Structural)]
pub enum RunAction {
    /// Nothing to do for this event.
    Nothing,
    /// Read and load the configuration.
    LoadConfig,
    /// Bring the broker session up.
    StartSession,
    /// Render the alert and POST it to the configured webhook.
    SendAlert,
    /// Tear the broker session down.
    TearDown,
    /// Report the outcome and exit.
    Report,
}

/// The complete transition table of a run.
///
/// A configuration or broker failure ends the run at once: no session is
/// ready at that point, so there is nothing to tear down.  After the send
/// stage the session is torn down whatever happened; a transport failure is
/// then surfaced as fatal, while a rejection is carried in the outcome and
/// the run still completes.  Every pair not listed leaves the state unchanged
/// and asks for nothing.
pub open spec fn spec_run_step(s: RunState, e: RunEvent) -> (RunState, RunAction) {
    match (s, e) {
        (RunState::Idle, RunEvent::Started) => (RunState::LoadingConfig, RunAction::LoadConfig),
        (RunState::LoadingConfig, RunEvent::ConfigLoaded(c)) => (
            RunState::StartingSession(c),
            RunAction::StartSession,
        ),
        (RunState::LoadingConfig, RunEvent::ConfigFailed(e)) => (
            RunState::Done(RunOutcome::Aborted(FatalError::ConfigFailure(e))),
            RunAction::Report,
        ),
        (RunState::StartingSession(c), RunEvent::SessionReady) => (
            RunState::SendingAlert(c),
            RunAction::SendAlert,
        ),
        (RunState::StartingSession(c), RunEvent::SessionFailed(e)) => (
            RunState::Done(RunOutcome::Aborted(FatalError::BrokerFailure(e))),
            RunAction::Report,
        ),
        (RunState::SendingAlert(c), RunEvent::Delivered(d)) => (
            RunState::TearingDown(RunOutcome::Completed(d)),
            RunAction::TearDown,
        ),
        (RunState::SendingAlert(c), RunEvent::DeliveryFailed(e)) => (
            RunState::TearingDown(RunOutcome::Aborted(FatalError::NotifyFailure(e))),
            RunAction::TearDown,
        ),
        (RunState::TearingDown(o), RunEvent::TornDown) => (RunState::Done(o), RunAction::Report),
        _ => (s, RunAction::Nothing),
    }
}

/// Whether the process exits successfully for this outcome: it does exactly
/// when every stage ran, whatever the webhook answered.
pub open spec fn spec_exit_success(o: RunOutcome) -> bool {
    o is Completed
}

/// Advance the run by one observed event.
pub fn run_step(s: RunState, e: RunEvent) -> (r: (RunState, RunAction))
    ensures
        r == spec_run_step(s, e),
{
    match (s, e) {
        (RunState::Idle, RunEvent::Started) => (RunState::LoadingConfig, RunAction::LoadConfig),
        (RunState::LoadingConfig, RunEvent::ConfigLoaded(c)) => (
            RunState::StartingSession(c),
            RunAction::StartSession,
        ),
        (RunState::LoadingConfig, RunEvent::ConfigFailed(e)) => (
            RunState::Done(RunOutcome::Aborted(FatalError::ConfigFailure(e))),
            RunAction::Report,
        ),
        (RunState::StartingSession(c), RunEvent::SessionReady) => (
            RunState::SendingAlert(c),
            RunAction::SendAlert,
        ),
        (RunState::StartingSession(c), RunEvent::SessionFailed(e)) => (
            RunState::Done(RunOutcome::Aborted(FatalError::BrokerFailure(e))),
            RunAction::Report,
        ),
        (RunState::SendingAlert(c), RunEvent::Delivered(d)) => (
            RunState::TearingDown(RunOutcome::Completed(d)),
            RunAction::TearDown,
        ),
        (RunState::SendingAlert(c), RunEvent::DeliveryFailed(e)) => (
            RunState::TearingDown(RunOutcome::Aborted(FatalError::NotifyFailure(e))),
            RunAction::TearDown,
        ),
        (RunState::TearingDown(o), RunEvent::TornDown) => (RunState::Done(o), RunAction::Report),
        (s, _) => (s, RunAction::Nothing),
    }
}

/// Whether the process exits successfully for this outcome.
pub fn exit_success(o: &RunOutcome) -> (r: bool)
    ensures
        r == spec_exit_success(*o),
{
    match o {
        RunOutcome::Completed(_) => true,
        RunOutcome::Aborted(_) => false,
    }
}

/// The final state and the performed stages of a run driven from `s` by the
/// events `es`, one action per event.
pub open spec fn run_sequence(s: RunState, es: Seq<RunEvent>) -> (RunState, Seq<RunAction>)
    decreases es.len(),
{
    if es.len() == 0 {
        (s, Seq::empty())
    } else {
        let first = spec_run_step(s, es[0]);
        let rest = run_sequence(first.0, es.drop_first());
        (rest.0, seq![first.1] + rest.1)
    }
}

/// A webhook rejection is not fatal: the run that observes one still tears
/// the session down, completes, and exits successfully — the rejected status
/// is only carried along in the outcome.
pub proof fn lemma_rejection_is_not_fatal(c: Configuration, status: u16)
    requires
        status != 200,
    ensures
        ({
            let sent = spec_run_step(
                RunState::SendingAlert(c),
                RunEvent::Delivered(crate::notify::spec_delivery_of_status(status)),
            );
            let down = spec_run_step(sent.0, RunEvent::TornDown);
            sent.1 == RunAction::TearDown && down.0 == RunState::Done(
                RunOutcome::Completed(DeliveryResult::Rejected(status)),
            ) && spec_exit_success(RunOutcome::Completed(DeliveryResult::Rejected(status)))
        }),
{
}

/// One whole run, as the process performs it: load the configuration, bring
/// the session up, send the alert, tear the session down, report.  Whatever
/// the webhook answered, the run completes with that answer in its outcome
/// and the process exits successfully.
pub proof fn lemma_completed_run(c: Configuration, d: DeliveryResult)
    ensures
        ({
            let es = seq![
                RunEvent::Started,
                RunEvent::ConfigLoaded(c),
                RunEvent::SessionReady,
                RunEvent::Delivered(d),
                RunEvent::TornDown,
            ];
            let r = run_sequence(RunState::Idle, es);
            r.0 == RunState::Done(RunOutcome::Completed(d)) && r.1 =~= seq![
                RunAction::LoadConfig,
                RunAction::StartSession,
                RunAction::SendAlert,
                RunAction::TearDown,
                RunAction::Report,
            ] && spec_exit_success(RunOutcome::Completed(d))
        }),
{
    let es = seq![
        RunEvent::Started,
        RunEvent::ConfigLoaded(c),
        RunEvent::SessionReady,
        RunEvent::Delivered(d),
        RunEvent::TornDown,
    ];
    reveal_with_fuel(run_sequence, 7);
    let es1 = seq![
        RunEvent::ConfigLoaded(c),
        RunEvent::SessionReady,
        RunEvent::Delivered(d),
        RunEvent::TornDown,
    ];
    let es2 = seq![RunEvent::SessionReady, RunEvent::Delivered(d), RunEvent::TornDown];
    let es3 = seq![RunEvent::Delivered(d), RunEvent::TornDown];
    let es4 = seq![RunEvent::TornDown];
    assert(es.drop_first() =~= es1);
    assert(es1.drop_first() =~= es2);
    assert(es2.drop_first() =~= es3);
    assert(es3.drop_first() =~= es4);
    assert(es4.drop_first() =~= Seq::<RunEvent>::empty());
    let r4 = run_sequence(RunState::TearingDown(RunOutcome::Completed(d)), es4);
    let r3 = run_sequence(RunState::SendingAlert(c), es3);
    let r2 = run_sequence(RunState::StartingSession(c), es2);
    let r1 = run_sequence(RunState::LoadingConfig, es1);
    let r = run_sequence(RunState::Idle, es);
    assert(r4.0 == RunState::Done(RunOutcome::Completed(d)));
    assert(r.1 =~= seq![
        RunAction::LoadConfig,
        RunAction::StartSession,
        RunAction::SendAlert,
        RunAction::TearDown,
        RunAction::Report,
    ]);
}

/// A configuration or broker failure aborts the run at once: the next action
/// is the report, nothing further is attempted, and the process exit is a
/// failure wrapping exactly the stage's error.
pub proof fn lemma_early_failure_aborts(c: Configuration, ce: ConfigError, be: BrokerError)
    ensures
        spec_run_step(RunState::LoadingConfig, RunEvent::ConfigFailed(ce)) == (
            RunState::Done(RunOutcome::Aborted(FatalError::ConfigFailure(ce))),
            RunAction::Report,
        ),
        spec_run_step(RunState::StartingSession(c), RunEvent::SessionFailed(be)) == (
            RunState::Done(RunOutcome::Aborted(FatalError::BrokerFailure(be))),
            RunAction::Report,
        ),
        !spec_exit_success(RunOutcome::Aborted(FatalError::ConfigFailure(ce))),
        !spec_exit_success(RunOutcome::Aborted(FatalError::BrokerFailure(be))),
{
}

} // verus!
