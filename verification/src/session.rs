//! The publishing session: bring the network up, connect to the broker
//! over TLS, then measure and publish the readings and the stock once a
//! minute, starting over after any failure.

use vstd::prelude::*;

use crate::inventory::{Inventory, Selection};
use crate::payload::decimal_digits;

verus! {

/// Milliseconds between two polls of the link or of the address.
pub const POLL_DELAY_MS: u64 = 500;
/// Milliseconds to wait before each attempt to reach the broker.
pub const RETRY_DELAY_MS: u64 = 1000;
/// Milliseconds to rest after a cycle in which every message went out.
pub const REST_MS: u64 = 59000;
/// Port of the MQTT broker (MQTT over TLS).
pub const BROKER_PORT: u16 = 8883;

/// The seven MQTT topics, in the order in which a cycle publishes them.
#[derive(Clone, Copy, Debug, PartialEq, Eq, Structural)]
pub enum Topic {
    Temperature,
    Pressure,
    Humidity,
    Gas,
    Hotdog,
    Sandwich,
    EnergyDrink,
}

/// The topic's name on the broker.
pub open spec fn topic_path(t: Topic) -> Seq<char> {
    match t {
        Topic::Temperature => "espboxlite/sensor/Temperature"@,
        Topic::Pressure => "espboxlite/sensor/Pressure"@,
        Topic::Humidity => "espboxlite/sensor/Humidity"@,
        Topic::Gas => "espboxlite/sensor/Gas"@,
        Topic::Hotdog => "espboxlite/inventory/Hotdog"@,
        Topic::Sandwich => "espboxlite/inventory/Sandwich"@,
        Topic::EnergyDrink => "espboxlite/inventory/EnergyDrink"@,
    }
}

/// The topics of one cycle, in publishing order.
pub open spec fn publish_order() -> Seq<Topic> {
    seq![
        Topic::Temperature,
        Topic::Pressure,
        Topic::Humidity,
        Topic::Gas,
        Topic::Hotdog,
        Topic::Sandwich,
        Topic::EnergyDrink,
    ]
}

/// The topic published after `t` in a cycle, if any.
pub open spec fn next_topic(t: Topic) -> Option<Topic> {
    match t {
        Topic::Temperature => Some(Topic::Pressure),
        Topic::Pressure => Some(Topic::Humidity),
        Topic::Humidity => Some(Topic::Gas),
        Topic::Gas => Some(Topic::Hotdog),
        Topic::Hotdog => Some(Topic::Sandwich),
        Topic::Sandwich => Some(Topic::EnergyDrink),
        Topic::EnergyDrink => None,
    }
}

/// The item whose stock a topic reports; `None` for the sensor topics.
pub open spec fn topic_item(t: Topic) -> Option<Selection> {
    match t {
        Topic::Hotdog => Some(Selection::Hotdog),
        Topic::Sandwich => Some(Selection::Sandwich),
        Topic::EnergyDrink => Some(Selection::EnergyDrink),
        _ => None,
    }
}

/// The topic's name on the broker.
pub fn topic_name(t: Topic) -> (r: &'static str)
    ensures
        r@ == topic_path(t),
{
    match t {
        Topic::Temperature => "espboxlite/sensor/Temperature",
        Topic::Pressure => "espboxlite/sensor/Pressure",
        Topic::Humidity => "espboxlite/sensor/Humidity",
        Topic::Gas => "espboxlite/sensor/Gas",
        Topic::Hotdog => "espboxlite/inventory/Hotdog",
        Topic::Sandwich => "espboxlite/inventory/Sandwich",
        Topic::EnergyDrink => "espboxlite/inventory/EnergyDrink",
    }
}

/// The payload of an inventory topic: the item's stock in decimal. The
/// sensor topics carry measurements, which are not known here: `None`.
pub fn stock_message(inv: &Inventory, t: Topic) -> (r: Option<Vec<u8>>)
    ensures
        r is Some <==> topic_item(t) is Some,
        r matches Some(p) ==> p@ == decimal_digits(inv.item_of(topic_item(t)->0).amount as nat),
        r is Some <==> (t == Topic::Hotdog || t == Topic::Sandwich || t == Topic::EnergyDrink),
        t == Topic::Hotdog ==> (r matches Some(p) && p@ == decimal_digits(inv.hotdog.amount as nat)),
        t == Topic::Sandwich ==> (r matches Some(p) && p@ == decimal_digits(inv.sandwich.amount as nat)),
        t == Topic::EnergyDrink ==> (r matches Some(p) && p@ == decimal_digits(inv.energy_drink.amount as nat)),
{
    proof {
        lemma_stock_topics(t);
    }
    match t {
        Topic::Hotdog => Some(inv.stock_payload(Selection::Hotdog)),
        Topic::Sandwich => Some(inv.stock_payload(Selection::Sandwich)),
        Topic::EnergyDrink => Some(inv.stock_payload(Selection::EnergyDrink)),
        _ => None,
    }
}

/// Only the three inventory topics carry a stock count, each its own item's;
/// the four sensor topics carry measurements.
pub proof fn lemma_stock_topics(t: Topic)
    ensures
        topic_item(t) is Some <==> (t == Topic::Hotdog || t == Topic::Sandwich || t == Topic::EnergyDrink),
        t == Topic::Hotdog ==> topic_item(t) == Some(Selection::Hotdog),
        t == Topic::Sandwich ==> topic_item(t) == Some(Selection::Sandwich),
        t == Topic::EnergyDrink ==> topic_item(t) == Some(Selection::EnergyDrink),
        publish_order().len() == 7,
        forall|i: int| 0 <= i < 4 ==> topic_item(#[trigger] publish_order()[i]) is None,
        forall|i: int| 4 <= i < 7 ==> topic_item(#[trigger] publish_order()[i]) is Some,
{
}

/// Where the session is.
#[derive(Clone, Copy, Debug, PartialEq, Eq, Structural)]
pub enum Session {
    /// Asking whether the link is up.
    AwaitLink,
    /// The link is down; waiting before asking again.
    LinkBackoff,
    /// Asking whether DHCP gave an address.
    AwaitAddress,
    /// No address yet; waiting before asking again.
    AddressBackoff,
    /// Waiting before an attempt to reach the broker.
    Pause,
    /// Looking the broker's name up.
    Resolving,
    /// Opening the TCP connection to the broker.
    Connecting,
    /// Running the TLS handshake.
    Securing,
    /// Connecting to the MQTT broker.
    JoiningBroker,
    /// Setting the sensor up.
    PreparingSensor,
    /// Taking a measurement.
    Measuring,
    /// Publishing this topic.
    Publishing(Topic),
    /// Resting after a complete cycle.
    Resting,
}

/// What the firmware has to do next for the session.
#[derive(Clone, Copy, Debug, PartialEq, Eq, Structural)]
pub enum SessionCommand {
    PollLink,
    PollAddress,
    Sleep(u64),
    Resolve,
    Connect,
    Secure,
    JoinBroker,
    PrepareSensor,
    Measure,
    Publish(Topic),
}

/// The broker's answer to a request.
#[derive(Clone, Copy, Debug, PartialEq, Eq, Structural)]
pub enum BrokerReply {
    /// The request succeeded.
    Accepted,
    /// The request failed on the network.
    NetworkError,
    /// The request failed for another reason.
    Refused,
}

/// What came back from the command that was carried out.
#[derive(Clone, Copy, Debug, PartialEq, Eq, Structural)]
pub enum SessionEvent {
    LinkUp(bool),
    AddressAcquired(bool),
    Slept,
    Resolved(bool),
    Connected(bool),
    Secured,
    Joined(BrokerReply),
    SensorReady,
    Measured,
    Published(BrokerReply),
}

/// Something to report on the console.
#[derive(Clone, Copy, Debug, PartialEq, Eq, Structural)]
pub enum SessionNotice {
    LookupFailed,
    ConnectFailed,
    BrokerNetworkError,
    BrokerError,
}

/// The outcome of one transition.
#[derive(Clone, Copy, Debug, PartialEq, Eq, Structural)]
pub struct SessionStep {
    pub state: Session,
    pub command: SessionCommand,
    pub notice: Option<SessionNotice>,
}

/// The command that a session in state `s` waits on.
pub open spec fn awaits(s: Session) -> SessionCommand {
    match s {
        Session::AwaitLink => SessionCommand::PollLink,
        Session::LinkBackoff => SessionCommand::Sleep(POLL_DELAY_MS),
        Session::AwaitAddress => SessionCommand::PollAddress,
        Session::AddressBackoff => SessionCommand::Sleep(POLL_DELAY_MS),
        Session::Pause => SessionCommand::Sleep(RETRY_DELAY_MS),
        Session::Resolving => SessionCommand::Resolve,
        Session::Connecting => SessionCommand::Connect,
        Session::Securing => SessionCommand::Secure,
        Session::JoiningBroker => SessionCommand::JoinBroker,
        Session::PreparingSensor => SessionCommand::PrepareSensor,
        Session::Measuring => SessionCommand::Measure,
        Session::Publishing(t) => SessionCommand::Publish(t),
        Session::Resting => SessionCommand::Sleep(REST_MS),
    }
}

/// How a failed broker request is reported.
pub open spec fn broker_notice(r: BrokerReply) -> SessionNotice {
    if r == BrokerReply::NetworkError {
        SessionNotice::BrokerNetworkError
    } else {
        SessionNotice::BrokerError
    }
}

/// The state after event `e` in state `s`, and what to report. An event
/// that does not answer the pending command changes nothing.
pub open spec fn session_next(s: Session, e: SessionEvent) -> (Session, Option<SessionNotice>) {
    match (s, e) {
        (Session::AwaitLink, SessionEvent::LinkUp(up)) => (
            if up { Session::AwaitAddress } else { Session::LinkBackoff },
            None,
        ),
        (Session::LinkBackoff, SessionEvent::Slept) => (Session::AwaitLink, None),
        (Session::AwaitAddress, SessionEvent::AddressAcquired(got)) => (
            if got { Session::Pause } else { Session::AddressBackoff },
            None,
        ),
        (Session::AddressBackoff, SessionEvent::Slept) => (Session::AwaitAddress, None),
        (Session::Pause, SessionEvent::Slept) => (Session::Resolving, None),
        (Session::Resolving, SessionEvent::Resolved(ok)) => if ok {
            (Session::Connecting, None)
        } else {
            (Session::Pause, Some(SessionNotice::LookupFailed))
        },
        (Session::Connecting, SessionEvent::Connected(ok)) => if ok {
            (Session::Securing, None)
        } else {
            (Session::Pause, Some(SessionNotice::ConnectFailed))
        },
        (Session::Securing, SessionEvent::Secured) => (Session::JoiningBroker, None),
        (Session::JoiningBroker, SessionEvent::Joined(r)) => if r == BrokerReply::Accepted {
            (Session::PreparingSensor, None)
        } else {
            (Session::Pause, Some(broker_notice(r)))
        },
        (Session::PreparingSensor, SessionEvent::SensorReady) => (Session::Measuring, None),
        (Session::Measuring, SessionEvent::Measured) => (Session::Publishing(Topic::Temperature), None),
        (Session::Publishing(t), SessionEvent::Published(r)) => if r == BrokerReply::Accepted {
            match next_topic(t) {
                Some(u) => (Session::Publishing(u), None),
                None => (Session::Resting, None),
            }
        } else {
            (Session::Measuring, Some(broker_notice(r)))
        },
        (Session::Resting, SessionEvent::Slept) => (Session::Measuring, None),
        _ => (s, None),
    }
}

/// The command that a session in state `s` waits on.
pub fn awaited_command(s: Session) -> (r: SessionCommand)
    ensures
        r == awaits(s),
{
    match s {
        Session::AwaitLink => SessionCommand::PollLink,
        Session::LinkBackoff => SessionCommand::Sleep(POLL_DELAY_MS),
        Session::AwaitAddress => SessionCommand::PollAddress,
        Session::AddressBackoff => SessionCommand::Sleep(POLL_DELAY_MS),
        Session::Pause => SessionCommand::Sleep(RETRY_DELAY_MS),
        Session::Resolving => SessionCommand::Resolve,
        Session::Connecting => SessionCommand::Connect,
        Session::Securing => SessionCommand::Secure,
        Session::JoiningBroker => SessionCommand::JoinBroker,
        Session::PreparingSensor => SessionCommand::PrepareSensor,
        Session::Measuring => SessionCommand::Measure,
        Session::Publishing(t) => SessionCommand::Publish(t),
        Session::Resting => SessionCommand::Sleep(REST_MS),
    }
}

/// The topic published after `t` in a cycle, if any.
pub fn following_topic(t: Topic) -> (r: Option<Topic>)
    ensures
        r == next_topic(t),
{
    match t {
        Topic::Temperature => Some(Topic::Pressure),
        Topic::Pressure => Some(Topic::Humidity),
        Topic::Humidity => Some(Topic::Gas),
        Topic::Gas => Some(Topic::Hotdog),
        Topic::Hotdog => Some(Topic::Sandwich),
        Topic::Sandwich => Some(Topic::EnergyDrink),
        Topic::EnergyDrink => None,
    }
}

fn failure_notice(r: BrokerReply) -> (n: SessionNotice)
    ensures
        n == broker_notice(r),
{
    if r == BrokerReply::NetworkError {
        SessionNotice::BrokerNetworkError
    } else {
        SessionNotice::BrokerError
    }
}

/// The session when the firmware starts, and its first command.
pub fn session_start() -> (r: SessionStep)
    ensures
        r.state == Session::AwaitLink,
        r.command == awaits(r.state),
        r.notice is None,
{
    SessionStep { state: Session::AwaitLink, command: SessionCommand::PollLink, notice: None }
}

/// One transition of the session: the new state, the command it waits on,
/// and what to report.
pub fn session_step(s: Session, e: SessionEvent) -> (r: SessionStep)
    ensures
        (r.state, r.notice) == session_next(s, e),
        r.command == awaits(r.state),
{
    let (state, notice) = match (s, e) {
        (Session::AwaitLink, SessionEvent::LinkUp(up)) => (
            if up { Session::AwaitAddress } else { Session::LinkBackoff },
            None,
        ),
        (Session::LinkBackoff, SessionEvent::Slept) => (Session::AwaitLink, None),
        (Session::AwaitAddress, SessionEvent::AddressAcquired(got)) => (
            if got { Session::Pause } else { Session::AddressBackoff },
            None,
        ),
        (Session::AddressBackoff, SessionEvent::Slept) => (Session::AwaitAddress, None),
        (Session::Pause, SessionEvent::Slept) => (Session::Resolving, None),
        (Session::Resolving, SessionEvent::Resolved(ok)) => if ok {
            (Session::Connecting, None)
        } else {
            (Session::Pause, Some(SessionNotice::LookupFailed))
        },
        (Session::Connecting, SessionEvent::Connected(ok)) => if ok {
            (Session::Securing, None)
        } else {
            (Session::Pause, Some(SessionNotice::ConnectFailed))
        },
        (Session::Securing, SessionEvent::Secured) => (Session::JoiningBroker, None),
        (Session::JoiningBroker, SessionEvent::Joined(r)) => if r == BrokerReply::Accepted {
            (Session::PreparingSensor, None)
        } else {
            (Session::Pause, Some(failure_notice(r)))
        },
        (Session::PreparingSensor, SessionEvent::SensorReady) => (Session::Measuring, None),
        (Session::Measuring, SessionEvent::Measured) => (Session::Publishing(Topic::Temperature), None),
        (Session::Publishing(t), SessionEvent::Published(r)) => if r == BrokerReply::Accepted {
            match following_topic(t) {
                Some(u) => (Session::Publishing(u), None),
                None => (Session::Resting, None),
            }
        } else {
            (Session::Measuring, Some(failure_notice(r)))
        },
        (Session::Resting, SessionEvent::Slept) => (Session::Measuring, None),
        _ => (s, None),
    };
    SessionStep { state, command: awaited_command(state), notice }
}

/// Bringing the session up: the link and then the address are polled every
/// half second until they are there; then, after a one-second pause, the
/// broker's name is looked up, the connection opened and secured, the
/// broker joined, the sensor set up, and the first measurement taken.
pub proof fn lemma_bring_up(up: bool, ok: bool)
    ensures
        session_next(Session::AwaitLink, SessionEvent::LinkUp(up)) == (if up {
            (Session::AwaitAddress, Option::<SessionNotice>::None)
        } else {
            (Session::LinkBackoff, Option::<SessionNotice>::None)
        }),
        awaits(Session::LinkBackoff) == SessionCommand::Sleep(POLL_DELAY_MS),
        session_next(Session::LinkBackoff, SessionEvent::Slept).0 == Session::AwaitLink,
        session_next(Session::AwaitAddress, SessionEvent::AddressAcquired(up)) == (if up {
            (Session::Pause, Option::<SessionNotice>::None)
        } else {
            (Session::AddressBackoff, Option::<SessionNotice>::None)
        }),
        awaits(Session::AddressBackoff) == SessionCommand::Sleep(POLL_DELAY_MS),
        session_next(Session::AddressBackoff, SessionEvent::Slept).0 == Session::AwaitAddress,
        session_next(Session::Resolving, SessionEvent::Resolved(ok)).0 == (if ok {
            Session::Connecting
        } else {
            Session::Pause
        }),
        session_next(Session::Connecting, SessionEvent::Connected(ok)).0 == (if ok {
            Session::Securing
        } else {
            Session::Pause
        }),
        session_next(Session::Securing, SessionEvent::Secured) == (Session::JoiningBroker, Option::<SessionNotice>::None),
        session_next(Session::JoiningBroker, SessionEvent::Joined(BrokerReply::Accepted)) == (
            Session::PreparingSensor,
            Option::<SessionNotice>::None,
        ),
        session_next(Session::PreparingSensor, SessionEvent::SensorReady).0 == Session::Measuring,
        awaits(Session::Resolving) == SessionCommand::Resolve,
        awaits(Session::Connecting) == SessionCommand::Connect,
        awaits(Session::Securing) == SessionCommand::Secure,
        awaits(Session::JoiningBroker) == SessionCommand::JoinBroker,
        awaits(Session::PreparingSensor) == SessionCommand::PrepareSensor,
        awaits(Session::Measuring) == SessionCommand::Measure,
        forall|t: Topic| #[trigger] awaits(Session::Publishing(t)) == SessionCommand::Publish(t),
{
}

/// A failed broker request is reported as a network error exactly when
/// the broker said so.
pub proof fn lemma_broker_notice(r: BrokerReply)
    requires
        r != BrokerReply::Accepted,
    ensures
        broker_notice(r) == SessionNotice::BrokerNetworkError <==> r == BrokerReply::NetworkError,
        broker_notice(r) == SessionNotice::BrokerError <==> r == BrokerReply::Refused,
{
}

/// A cycle publishes the seven topics in `publish_order`: a measurement
/// starts it with the first topic, each accepted message moves on to the
/// next one, and after the last the session rests for 59 seconds and then
/// measures again.
pub proof fn lemma_cycle_publishes_in_order(i: int)
    requires
        0 <= i < 7,
    ensures
        session_next(Session::Measuring, SessionEvent::Measured).0 == Session::Publishing(publish_order()[0]),
        i + 1 < 7 ==> session_next(
            Session::Publishing(publish_order()[i]),
            SessionEvent::Published(BrokerReply::Accepted),
        ) == (Session::Publishing(publish_order()[i + 1]), Option::<SessionNotice>::None),
        i + 1 == 7 ==> session_next(
            Session::Publishing(publish_order()[i]),
            SessionEvent::Published(BrokerReply::Accepted),
        ) == (Session::Resting, Option::<SessionNotice>::None),
        awaits(Session::Resting) == SessionCommand::Sleep(REST_MS),
        session_next(Session::Resting, SessionEvent::Slept).0 == Session::Measuring,
{
}

/// A message the broker does not take is reported and the cycle starts
/// over with a new measurement at once, without the rest.
pub proof fn lemma_failed_publish_remeasures(t: Topic, r: BrokerReply)
    requires
        r != BrokerReply::Accepted,
    ensures
        session_next(Session::Publishing(t), SessionEvent::Published(r)) == (
            Session::Measuring,
            Some(broker_notice(r)),
        ),
{
}

/// Every failure on the way to the broker is reported and followed by a
/// one-second pause, after which the whole connection is attempted again.
pub proof fn lemma_connection_failures_retry_after_pause(r: BrokerReply)
    requires
        r != BrokerReply::Accepted,
    ensures
        session_next(Session::Resolving, SessionEvent::Resolved(false)) == (
            Session::Pause,
            Some(SessionNotice::LookupFailed),
        ),
        session_next(Session::Connecting, SessionEvent::Connected(false)) == (
            Session::Pause,
            Some(SessionNotice::ConnectFailed),
        ),
        session_next(Session::JoiningBroker, SessionEvent::Joined(r)) == (
            Session::Pause,
            Some(broker_notice(r)),
        ),
        awaits(Session::Pause) == SessionCommand::Sleep(RETRY_DELAY_MS),
        session_next(Session::Pause, SessionEvent::Slept).0 == Session::Resolving,
{
}

/// Messages go out only in a publishing state, that is after the broker
/// accepted the connection and a measurement was taken; and a state leaves
/// the publishing phase only by completing or failing a message.
pub proof fn lemma_publish_only_after_measuring(s: Session, e: SessionEvent)
    requires
        session_next(s, e).0 is Publishing,
        !(s is Publishing),
    ensures
        s == Session::Measuring,
        e == SessionEvent::Measured,
        session_next(s, e).0 == Session::Publishing(Topic::Temperature),
{
}

} // verus!
