use espbox_kiosk::inventory::Inventory;
use espbox_kiosk::session::{
    session_start, session_step, stock_message, topic_name, BrokerReply, Session, SessionCommand,
    SessionEvent, SessionNotice, Topic,
};
use espbox_kiosk::wifi::{keeper_start, keeper_step, Keeper, KeeperCommand, KeeperEvent, KeeperNotice, Probe};

#[test]
fn topic_names() {
    assert_eq!(topic_name(Topic::Temperature), "espboxlite/sensor/Temperature");
    assert_eq!(topic_name(Topic::Pressure), "espboxlite/sensor/Pressure");
    assert_eq!(topic_name(Topic::Humidity), "espboxlite/sensor/Humidity");
    assert_eq!(topic_name(Topic::Gas), "espboxlite/sensor/Gas");
    assert_eq!(topic_name(Topic::Hotdog), "espboxlite/inventory/Hotdog");
    assert_eq!(topic_name(Topic::Sandwich), "espboxlite/inventory/Sandwich");
    assert_eq!(topic_name(Topic::EnergyDrink), "espboxlite/inventory/EnergyDrink");
}

#[test]
fn stock_messages() {
    let inv = Inventory::initial();
    assert_eq!(stock_message(&inv, Topic::Hotdog), Some(b"10".to_vec()));
    assert_eq!(stock_message(&inv, Topic::Sandwich), Some(b"9".to_vec()));
    assert_eq!(stock_message(&inv, Topic::EnergyDrink), Some(b"11".to_vec()));
    assert_eq!(stock_message(&inv, Topic::Gas), None);
    assert_eq!(stock_message(&inv, Topic::Temperature), None);
}

fn drive(mut s: Session, events: &[SessionEvent]) -> (Session, Vec<SessionCommand>, Vec<SessionNotice>) {
    let mut cmds = Vec::new();
    let mut notices = Vec::new();
    for e in events {
        let step = session_step(s, *e);
        s = step.state;
        cmds.push(step.command);
        if let Some(n) = step.notice {
            notices.push(n);
        }
    }
    (s, cmds, notices)
}

#[test]
fn session_brings_network_up() {
    let start = session_start();
    assert_eq!(start.state, Session::AwaitLink);
    assert_eq!(start.command, SessionCommand::PollLink);
    let (s, cmds, notices) = drive(
        start.state,
        &[
            SessionEvent::LinkUp(false),
            SessionEvent::Slept,
            SessionEvent::LinkUp(true),
            SessionEvent::AddressAcquired(false),
            SessionEvent::Slept,
            SessionEvent::AddressAcquired(true),
            SessionEvent::Slept,
            SessionEvent::Resolved(true),
            SessionEvent::Connected(true),
            SessionEvent::Secured,
            SessionEvent::Joined(BrokerReply::Accepted),
            SessionEvent::SensorReady,
        ],
    );
    assert_eq!(s, Session::Measuring);
    assert!(notices.is_empty());
    assert_eq!(
        cmds,
        vec![
            SessionCommand::Sleep(500),
            SessionCommand::PollLink,
            SessionCommand::PollAddress,
            SessionCommand::Sleep(500),
            SessionCommand::PollAddress,
            SessionCommand::Sleep(1000),
            SessionCommand::Resolve,
            SessionCommand::Connect,
            SessionCommand::Secure,
            SessionCommand::JoinBroker,
            SessionCommand::PrepareSensor,
            SessionCommand::Measure,
        ]
    );
}

#[test]
fn session_full_cycle_publishes_seven_topics_then_rests() {
    let mut events = vec![SessionEvent::Measured];
    events.extend(std::iter::repeat(SessionEvent::Published(BrokerReply::Accepted)).take(7));
    events.push(SessionEvent::Slept);
    let (s, cmds, notices) = drive(Session::Measuring, &events);
    assert_eq!(s, Session::Measuring);
    assert!(notices.is_empty());
    assert_eq!(
        cmds,
        vec![
            SessionCommand::Publish(Topic::Temperature),
            SessionCommand::Publish(Topic::Pressure),
            SessionCommand::Publish(Topic::Humidity),
            SessionCommand::Publish(Topic::Gas),
            SessionCommand::Publish(Topic::Hotdog),
            SessionCommand::Publish(Topic::Sandwich),
            SessionCommand::Publish(Topic::EnergyDrink),
            SessionCommand::Sleep(59000),
            SessionCommand::Measure,
        ]
    );
}

#[test]
fn session_failed_publish_remeasures() {
    let step = session_step(Session::Publishing(Topic::Gas), SessionEvent::Published(BrokerReply::NetworkError));
    assert_eq!(step.state, Session::Measuring);
    assert_eq!(step.command, SessionCommand::Measure);
    assert_eq!(step.notice, Some(SessionNotice::BrokerNetworkError));
    let step = session_step(Session::Publishing(Topic::Hotdog), SessionEvent::Published(BrokerReply::Refused));
    assert_eq!(step.state, Session::Measuring);
    assert_eq!(step.notice, Some(SessionNotice::BrokerError));
}

#[test]
fn session_connection_failures_pause() {
    let step = session_step(Session::Resolving, SessionEvent::Resolved(false));
    assert_eq!((step.state, step.command, step.notice), (Session::Pause, SessionCommand::Sleep(1000), Some(SessionNotice::LookupFailed)));
    let step = session_step(Session::Connecting, SessionEvent::Connected(false));
    assert_eq!((step.state, step.notice), (Session::Pause, Some(SessionNotice::ConnectFailed)));
    let step = session_step(Session::JoiningBroker, SessionEvent::Joined(BrokerReply::NetworkError));
    assert_eq!((step.state, step.notice), (Session::Pause, Some(SessionNotice::BrokerNetworkError)));
    let step = session_step(Session::JoiningBroker, SessionEvent::Joined(BrokerReply::Refused));
    assert_eq!((step.state, step.notice), (Session::Pause, Some(SessionNotice::BrokerError)));
}

#[test]
fn session_ignores_unrelated_events() {
    let step = session_step(Session::Measuring, SessionEvent::Slept);
    assert_eq!((step.state, step.command, step.notice), (Session::Measuring, SessionCommand::Measure, None));
}

#[test]
fn keeper_connected_then_disconnected() {
    let start = keeper_start();
    assert_eq!((start.state, start.command), (Keeper::CheckingState, KeeperCommand::ReadState));
    let s = keeper_step(Keeper::CheckingState, KeeperEvent::State(true));
    assert_eq!((s.state, s.command), (Keeper::AwaitingDisconnect, KeeperCommand::WaitForDisconnect));
    let s = keeper_step(s.state, KeeperEvent::Disconnected);
    assert_eq!((s.state, s.command), (Keeper::Cooling, KeeperCommand::Sleep(5000)));
    let s = keeper_step(s.state, KeeperEvent::Slept);
    assert_eq!((s.state, s.command), (Keeper::CheckingStarted, KeeperCommand::AskStarted));
    let s = keeper_step(s.state, KeeperEvent::StartedProbe(Probe::Started));
    assert_eq!((s.state, s.command), (Keeper::Connecting, KeeperCommand::Connect));
    let s = keeper_step(s.state, KeeperEvent::Joined(true));
    assert_eq!((s.state, s.command, s.notice), (Keeper::CheckingState, KeeperCommand::ReadState, Some(KeeperNotice::Connected)));
}

#[test]
fn keeper_starts_radio_when_needed() {
    for probe in [Probe::Stopped, Probe::Failed] {
        let s = keeper_step(Keeper::CheckingStarted, KeeperEvent::StartedProbe(probe));
        assert_eq!((s.state, s.command), (Keeper::Configuring, KeeperCommand::Configure));
    }
    let s = keeper_step(Keeper::Configuring, KeeperEvent::Configured(true));
    assert_eq!((s.state, s.command), (Keeper::Starting, KeeperCommand::Start));
    let s = keeper_step(Keeper::Starting, KeeperEvent::StartedUp(true));
    assert_eq!((s.state, s.command, s.notice), (Keeper::Connecting, KeeperCommand::Connect, Some(KeeperNotice::RadioStarted)));
}

#[test]
fn keeper_failures() {
    let s = keeper_step(Keeper::Configuring, KeeperEvent::Configured(false));
    assert_eq!((s.state, s.command, s.notice), (Keeper::CheckingState, KeeperCommand::ReadState, Some(KeeperNotice::ConfigurationFailed)));
    let s = keeper_step(Keeper::Starting, KeeperEvent::StartedUp(false));
    assert_eq!((s.state, s.notice), (Keeper::CheckingState, Some(KeeperNotice::StartFailed)));
    let s = keeper_step(Keeper::Connecting, KeeperEvent::Joined(false));
    assert_eq!((s.state, s.command, s.notice), (Keeper::Backoff, KeeperCommand::Sleep(5000), Some(KeeperNotice::ConnectFailed)));
    let s = keeper_step(s.state, KeeperEvent::Slept);
    assert_eq!((s.state, s.command), (Keeper::CheckingState, KeeperCommand::ReadState));
}
