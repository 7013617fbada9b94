use slack_alert::broker::close_code;
use slack_alert::broker::close_reason;
use slack_alert::broker::consumer_tag;
use slack_alert::broker::default_broker_addr;
use slack_alert::broker::exchange_name;
use slack_alert::broker::queue_name;
use slack_alert::broker::resolve_broker_addr;
use slack_alert::broker::session_ready;
use slack_alert::broker::session_step;
use slack_alert::broker::BrokerAction;
use slack_alert::broker::BrokerError;
use slack_alert::broker::BrokerEvent;
use slack_alert::broker::SessionState;

#[test]
fn setup_walks_every_step_in_order() {
    let (s, a) = session_step(SessionState::Disconnected, BrokerEvent::StartRequested);
    assert_eq!(s, SessionState::Connecting);
    assert_eq!(a, BrokerAction::OpenConnection);
    let (s, a) = session_step(s, BrokerEvent::ConnectOk);
    assert_eq!(s, SessionState::Connected);
    assert_eq!(a, BrokerAction::OpenChannel);
    let (s, a) = session_step(s, BrokerEvent::ChannelOk);
    assert_eq!(s, SessionState::ChannelOpen);
    assert_eq!(a, BrokerAction::DeclareTopology);
    let (s, a) = session_step(s, BrokerEvent::DeclareOk);
    assert_eq!(s, SessionState::Declared);
    assert_eq!(a, BrokerAction::RegisterConsumer);
    assert!(!session_ready(s));
    let (s, a) = session_step(s, BrokerEvent::ConsumeOk);
    assert_eq!(s, SessionState::ConsumerRegistered);
    assert_eq!(a, BrokerAction::Nothing);
    assert!(session_ready(s));
}

#[test]
fn connect_failure_aborts_without_side_effects() {
    let (s, a) = session_step(SessionState::Connecting, BrokerEvent::ConnectFailed);
    assert_eq!(s, SessionState::Failed(BrokerError::ConnectionFailed));
    assert_eq!(a, BrokerAction::Nothing);
    // A failed session is inert: later events ask for nothing.
    let (s, a) = session_step(s, BrokerEvent::ChannelOk);
    assert_eq!(s, SessionState::Failed(BrokerError::ConnectionFailed));
    assert_eq!(a, BrokerAction::Nothing);
    let (s, a) = session_step(s, BrokerEvent::DeclareOk);
    assert_eq!(s, SessionState::Failed(BrokerError::ConnectionFailed));
    assert_eq!(a, BrokerAction::Nothing);
    let (s, a) = session_step(s, BrokerEvent::CloseRequested);
    assert_eq!(s, SessionState::Failed(BrokerError::ConnectionFailed));
    assert_eq!(a, BrokerAction::Nothing);
}

#[test]
fn each_setup_stage_reports_its_own_failure() {
    let (s, _) = session_step(SessionState::Connected, BrokerEvent::ChannelFailed);
    assert_eq!(s, SessionState::Failed(BrokerError::ChannelFailed));
    let (s, _) = session_step(SessionState::ChannelOpen, BrokerEvent::DeclareFailed);
    assert_eq!(s, SessionState::Failed(BrokerError::DeclareFailed));
    let (s, _) = session_step(SessionState::Declared, BrokerEvent::ConsumeFailed);
    assert_eq!(s, SessionState::Failed(BrokerError::ConsumeFailed));
}

#[test]
fn teardown_closes_channel_before_connection_exactly_once() {
    let (s, a) = session_step(SessionState::ConsumerRegistered, BrokerEvent::CloseRequested);
    assert_eq!(s, SessionState::Closing);
    assert_eq!(a, BrokerAction::CloseChannel);
    // A second teardown request is ignored.
    let (s, a) = session_step(s, BrokerEvent::CloseRequested);
    assert_eq!(s, SessionState::Closing);
    assert_eq!(a, BrokerAction::Nothing);
    let (s, a) = session_step(s, BrokerEvent::ChannelCloseDone);
    assert_eq!(s, SessionState::ClosingConnection);
    assert_eq!(a, BrokerAction::CloseConnection);
    let (s, a) = session_step(s, BrokerEvent::ConnectionCloseDone);
    assert_eq!(s, SessionState::Closed);
    assert_eq!(a, BrokerAction::Nothing);
    // And once closed, closing again does nothing.
    let (s, a) = session_step(s, BrokerEvent::CloseRequested);
    assert_eq!(s, SessionState::Closed);
    assert_eq!(a, BrokerAction::Nothing);
}

#[test]
fn unexpected_events_change_nothing() {
    let (s, a) = session_step(SessionState::Disconnected, BrokerEvent::ConnectOk);
    assert_eq!(s, SessionState::Disconnected);
    assert_eq!(a, BrokerAction::Nothing);
    let (s, a) = session_step(SessionState::Closing, BrokerEvent::ConnectionCloseDone);
    assert_eq!(s, SessionState::Closing);
    assert_eq!(a, BrokerAction::Nothing);
}

#[test]
fn broker_address_prefers_the_override() {
    let addr = resolve_broker_addr(Some("amqp://broker:5672/%2f".to_string()));
    assert_eq!(addr, "amqp://broker:5672/%2f");
    assert_eq!(resolve_broker_addr(None), "amqp://127.0.0.1:5672/%2f");
    assert_eq!(default_broker_addr(), "amqp://127.0.0.1:5672/%2f");
}

#[test]
fn protocol_names_are_fixed() {
    assert_eq!(exchange_name(), "2steps");
    assert_eq!(queue_name(), "slack_alerts");
    assert_eq!(consumer_tag(), "my tag");
    assert_eq!(close_code(), 200);
    assert_eq!(close_reason(), "client shut down");
}
