use slack_alert::broker::BrokerError;
use slack_alert::config::ConfigError;
use slack_alert::config::Configuration;
use slack_alert::notify::DeliveryResult;
use slack_alert::notify::NotifyError;
use slack_alert::run::exit_success;
use slack_alert::run::run_step;
use slack_alert::run::FatalError;
use slack_alert::run::RunAction;
use slack_alert::run::RunEvent;
use slack_alert::run::RunOutcome;
use slack_alert::run::RunState;

fn test_config() -> Configuration {
    Configuration {
        webhook_url: "http://localhost:9999/hook".to_string(),
    }
}

fn drive(events: Vec<RunEvent>) -> (RunState, Vec<RunAction>) {
    let mut state = RunState::Idle;
    let mut actions = Vec::new();
    for e in events {
        let (next, action) = run_step(state, e);
        state = next;
        actions.push(action);
    }
    (state, actions)
}

#[test]
fn full_run_sends_once_and_exits_zero() {
    let (state, actions) = drive(vec![
        RunEvent::Started,
        RunEvent::ConfigLoaded(test_config()),
        RunEvent::SessionReady,
        RunEvent::Delivered(DeliveryResult::Acknowledged),
        RunEvent::TornDown,
    ]);
    assert_eq!(
        actions,
        vec![
            RunAction::LoadConfig,
            RunAction::StartSession,
            RunAction::SendAlert,
            RunAction::TearDown,
            RunAction::Report,
        ]
    );
    // Exactly one send is asked for over the whole run.
    assert_eq!(
        actions.iter().filter(|a| **a == RunAction::SendAlert).count(),
        1
    );
    let outcome = RunOutcome::Completed(DeliveryResult::Acknowledged);
    assert_eq!(state, RunState::Done(outcome));
    assert!(exit_success(&outcome));
}

#[test]
fn rejected_delivery_is_not_fatal() {
    let (state, actions) = drive(vec![
        RunEvent::Started,
        RunEvent::ConfigLoaded(test_config()),
        RunEvent::SessionReady,
        RunEvent::Delivered(DeliveryResult::Rejected(503)),
        RunEvent::TornDown,
    ]);
    // The session is still torn down and the run completes.
    assert_eq!(actions[3], RunAction::TearDown);
    let outcome = RunOutcome::Completed(DeliveryResult::Rejected(503));
    assert_eq!(state, RunState::Done(outcome));
    assert!(exit_success(&outcome));
}

#[test]
fn config_failure_aborts_at_once() {
    let (state, actions) = drive(vec![
        RunEvent::Started,
        RunEvent::ConfigFailed(ConfigError::MissingField),
    ]);
    assert_eq!(actions, vec![RunAction::LoadConfig, RunAction::Report]);
    let outcome = RunOutcome::Aborted(FatalError::ConfigFailure(ConfigError::MissingField));
    assert_eq!(state, RunState::Done(outcome));
    assert!(!exit_success(&outcome));
}

#[test]
fn broker_failure_aborts_at_once() {
    let (state, actions) = drive(vec![
        RunEvent::Started,
        RunEvent::ConfigLoaded(test_config()),
        RunEvent::SessionFailed(BrokerError::ConnectionFailed),
    ]);
    assert_eq!(
        actions,
        vec![RunAction::LoadConfig, RunAction::StartSession, RunAction::Report]
    );
    let outcome = RunOutcome::Aborted(FatalError::BrokerFailure(BrokerError::ConnectionFailed));
    assert_eq!(state, RunState::Done(outcome));
    assert!(!exit_success(&outcome));
}

#[test]
fn transport_failure_still_tears_down() {
    let (state, actions) = drive(vec![
        RunEvent::Started,
        RunEvent::ConfigLoaded(test_config()),
        RunEvent::SessionReady,
        RunEvent::DeliveryFailed(NotifyError::TransportFailure),
        RunEvent::TornDown,
    ]);
    assert_eq!(actions[3], RunAction::TearDown);
    assert_eq!(actions[4], RunAction::Report);
    let outcome = RunOutcome::Aborted(FatalError::NotifyFailure(NotifyError::TransportFailure));
    assert_eq!(state, RunState::Done(outcome));
    assert!(!exit_success(&outcome));
}

#[test]
fn unexpected_run_events_change_nothing() {
    let (state, action) = run_step(RunState::Idle, RunEvent::TornDown);
    assert_eq!(state, RunState::Idle);
    assert_eq!(action, RunAction::Nothing);
    let (state, action) = run_step(RunState::LoadingConfig, RunEvent::SessionReady);
    assert_eq!(state, RunState::LoadingConfig);
    assert_eq!(action, RunAction::Nothing);
}
