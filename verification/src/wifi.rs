//! The WiFi keeper: keeps the station connected, restarting the radio when
//! needed and retrying after failures.

use vstd::prelude::*;

verus! {

/// Milliseconds to wait after losing the connection, and after a failed
/// connection attempt.
pub const RECONNECT_DELAY_MS: u64 = 5000;

/// Where the keeper is in its cycle.
#[derive(Clone, Copy, Debug, PartialEq, Eq, Structural)]
pub enum Keeper {
    /// Reading the station state.
    CheckingState,
    /// Connected; waiting for the disconnect event.
    AwaitingDisconnect,
    /// Disconnected a moment ago; waiting before doing anything.
    Cooling,
    /// Asking the controller whether the radio is started.
    CheckingStarted,
    /// Handing the station configuration to the controller.
    Configuring,
    /// Starting the radio.
    Starting,
    /// Connecting to the access point.
    Connecting,
    /// The connection attempt failed; waiting before the next round.
    Backoff,
}

/// What the firmware has to do next for the keeper.
#[derive(Clone, Copy, Debug, PartialEq, Eq, Structural)]
pub enum KeeperCommand {
    ReadState,
    WaitForDisconnect,
    Sleep(u64),
    AskStarted,
    Configure,
    Start,
    Connect,
}

/// The controller's answer to "is the radio started?".
#[derive(Clone, Copy, Debug, PartialEq, Eq, Structural)]
pub enum Probe {
    /// It answered yes.
    Started,
    /// It answered no.
    Stopped,
    /// It answered with an error.
    Failed,
}

/// What came back from the command that was carried out.
#[derive(Clone, Copy, Debug, PartialEq, Eq, Structural)]
pub enum KeeperEvent {
    /// The station state: `true` when connected to the access point.
    State(bool),
    /// The disconnect event arrived.
    Disconnected,
    /// The sleep is over.
    Slept,
    /// The answer to "is the radio started?".
    StartedProbe(Probe),
    /// Whether the configuration was accepted.
    Configured(bool),
    /// Whether the radio started.
    StartedUp(bool),
    /// Whether the connection attempt succeeded.
    Joined(bool),
}

/// Something to report on the console.
#[derive(Clone, Copy, Debug, PartialEq, Eq, Structural)]
pub enum KeeperNotice {
    ConfigurationFailed,
    StartFailed,
    RadioStarted,
    Connected,
    ConnectFailed,
}

/// The outcome of one transition.
#[derive(Clone, Copy, Debug, PartialEq, Eq, Structural)]
pub struct KeeperStep {
    pub state: Keeper,
    pub command: KeeperCommand,
    pub notice: Option<KeeperNotice>,
}

/// The command that a keeper in state `s` waits on.
pub open spec fn pending(s: Keeper) -> KeeperCommand {
    match s {
        Keeper::CheckingState => KeeperCommand::ReadState,
        Keeper::AwaitingDisconnect => KeeperCommand::WaitForDisconnect,
        Keeper::Cooling => KeeperCommand::Sleep(RECONNECT_DELAY_MS),
        Keeper::CheckingStarted => KeeperCommand::AskStarted,
        Keeper::Configuring => KeeperCommand::Configure,
        Keeper::Starting => KeeperCommand::Start,
        Keeper::Connecting => KeeperCommand::Connect,
        Keeper::Backoff => KeeperCommand::Sleep(RECONNECT_DELAY_MS),
    }
}

/// The state after event `e` in state `s`, and what to report. An event
/// that does not answer the pending command changes nothing.
pub open spec fn keeper_next(s: Keeper, e: KeeperEvent) -> (Keeper, Option<KeeperNotice>) {
    match (s, e) {
        (Keeper::CheckingState, KeeperEvent::State(true)) => (Keeper::AwaitingDisconnect, None),
        (Keeper::CheckingState, KeeperEvent::State(false)) => (Keeper::CheckingStarted, None),
        (Keeper::AwaitingDisconnect, KeeperEvent::Disconnected) => (Keeper::Cooling, None),
        (Keeper::Cooling, KeeperEvent::Slept) => (Keeper::CheckingStarted, None),
        (Keeper::CheckingStarted, KeeperEvent::StartedProbe(Probe::Started)) => (Keeper::Connecting, None),
        (Keeper::CheckingStarted, KeeperEvent::StartedProbe(_)) => (Keeper::Configuring, None),
        (Keeper::Configuring, KeeperEvent::Configured(true)) => (Keeper::Starting, None),
        (Keeper::Configuring, KeeperEvent::Configured(false)) => (
            Keeper::CheckingState,
            Some(KeeperNotice::ConfigurationFailed),
        ),
        (Keeper::Starting, KeeperEvent::StartedUp(true)) => (Keeper::Connecting, Some(KeeperNotice::RadioStarted)),
        (Keeper::Starting, KeeperEvent::StartedUp(false)) => (Keeper::CheckingState, Some(KeeperNotice::StartFailed)),
        (Keeper::Connecting, KeeperEvent::Joined(true)) => (Keeper::CheckingState, Some(KeeperNotice::Connected)),
        (Keeper::Connecting, KeeperEvent::Joined(false)) => (Keeper::Backoff, Some(KeeperNotice::ConnectFailed)),
        (Keeper::Backoff, KeeperEvent::Slept) => (Keeper::CheckingState, None),
        _ => (s, None),
    }
}

/// The command that a keeper in state `s` waits on.
pub fn pending_command(s: Keeper) -> (r: KeeperCommand)
    ensures
        r == pending(s),
{
    match s {
        Keeper::CheckingState => KeeperCommand::ReadState,
        Keeper::AwaitingDisconnect => KeeperCommand::WaitForDisconnect,
        Keeper::Cooling => KeeperCommand::Sleep(RECONNECT_DELAY_MS),
        Keeper::CheckingStarted => KeeperCommand::AskStarted,
        Keeper::Configuring => KeeperCommand::Configure,
        Keeper::Starting => KeeperCommand::Start,
        Keeper::Connecting => KeeperCommand::Connect,
        Keeper::Backoff => KeeperCommand::Sleep(RECONNECT_DELAY_MS),
    }
}

/// The keeper when its task starts, and its first command.
pub fn keeper_start() -> (r: KeeperStep)
    ensures
        r.state == Keeper::CheckingState,
        r.command == pending(r.state),
        r.notice is None,
{
    KeeperStep { state: Keeper::CheckingState, command: KeeperCommand::ReadState, notice: None }
}

/// One transition of the keeper: the new state, the command it waits on,
/// and what to report.
pub fn keeper_step(s: Keeper, e: KeeperEvent) -> (r: KeeperStep)
    ensures
        (r.state, r.notice) == keeper_next(s, e),
        r.command == pending(r.state),
{
    let (state, notice) = match (s, e) {
        (Keeper::CheckingState, KeeperEvent::State(connected)) => {
            if connected {
                (Keeper::AwaitingDisconnect, None)
            } else {
                (Keeper::CheckingStarted, None)
            }
        },
        (Keeper::AwaitingDisconnect, KeeperEvent::Disconnected) => (Keeper::Cooling, None),
        (Keeper::Cooling, KeeperEvent::Slept) => (Keeper::CheckingStarted, None),
        (Keeper::CheckingStarted, KeeperEvent::StartedProbe(p)) => {
            if p == Probe::Started {
                (Keeper::Connecting, None)
            } else {
                (Keeper::Configuring, None)
            }
        },
        (Keeper::Configuring, KeeperEvent::Configured(ok)) => {
            if ok {
                (Keeper::Starting, None)
            } else {
                (Keeper::CheckingState, Some(KeeperNotice::ConfigurationFailed))
            }
        },
        (Keeper::Starting, KeeperEvent::StartedUp(ok)) => {
            if ok {
                (Keeper::Connecting, Some(KeeperNotice::RadioStarted))
            } else {
                (Keeper::CheckingState, Some(KeeperNotice::StartFailed))
            }
        },
        (Keeper::Connecting, KeeperEvent::Joined(ok)) => {
            if ok {
                (Keeper::CheckingState, Some(KeeperNotice::Connected))
            } else {
                (Keeper::Backoff, Some(KeeperNotice::ConnectFailed))
            }
        },
        (Keeper::Backoff, KeeperEvent::Slept) => (Keeper::CheckingState, None),
        _ => (s, None),
    };
    KeeperStep { state, command: pending_command(state), notice }
}

/// The station state decides between the two branches of a round: a
/// connected station is left alone until it disconnects; any other state
/// goes on to check the radio (and then configure, start and connect).
/// Nothing but a "connected" reading leads to waiting for a disconnect.
pub proof fn lemma_state_reading_branches(connected: bool, s: Keeper, e: KeeperEvent)
    ensures
        keeper_next(Keeper::CheckingState, KeeperEvent::State(connected)).0 == (if connected {
            Keeper::AwaitingDisconnect
        } else {
            Keeper::CheckingStarted
        }),
        keeper_next(Keeper::CheckingState, KeeperEvent::State(connected)).1 is None,
        keeper_next(s, e).0 == Keeper::AwaitingDisconnect ==> s == Keeper::AwaitingDisconnect || (s
            == Keeper::CheckingState && e == KeeperEvent::State(true)),
        pending(Keeper::CheckingStarted) == KeeperCommand::AskStarted,
        pending(s) == KeeperCommand::WaitForDisconnect <==> s == Keeper::AwaitingDisconnect,
        pending(s) == KeeperCommand::Connect <==> s == Keeper::Connecting,
        pending(s) == KeeperCommand::AskStarted <==> s == Keeper::CheckingStarted,
{
}

/// Each step of bringing the radio up moves on when it succeeds and
/// reports and starts the round over when it fails; a radio that is not
/// known to run is configured and started before connecting.
pub proof fn lemma_radio_steps(ok: bool, p: Probe)
    ensures
        keeper_next(Keeper::CheckingStarted, KeeperEvent::StartedProbe(p)) == (if p == Probe::Started {
            (Keeper::Connecting, Option::<KeeperNotice>::None)
        } else {
            (Keeper::Configuring, Option::<KeeperNotice>::None)
        }),
        keeper_next(Keeper::Configuring, KeeperEvent::Configured(ok)) == (if ok {
            (Keeper::Starting, Option::<KeeperNotice>::None)
        } else {
            (Keeper::CheckingState, Some(KeeperNotice::ConfigurationFailed))
        }),
        keeper_next(Keeper::Starting, KeeperEvent::StartedUp(ok)) == (if ok {
            (Keeper::Connecting, Some(KeeperNotice::RadioStarted))
        } else {
            (Keeper::CheckingState, Some(KeeperNotice::StartFailed))
        }),
        keeper_next(Keeper::Connecting, KeeperEvent::Joined(ok)) == (if ok {
            (Keeper::CheckingState, Some(KeeperNotice::Connected))
        } else {
            (Keeper::Backoff, Some(KeeperNotice::ConnectFailed))
        }),
        pending(Keeper::Configuring) == KeeperCommand::Configure,
        pending(Keeper::Starting) == KeeperCommand::Start,
        pending(Keeper::CheckingState) == KeeperCommand::ReadState,
{
}

/// An event that does not answer the command the keeper waits on changes
/// nothing and reports nothing.
pub proof fn lemma_unrelated_events_ignored(s: Keeper, e: KeeperEvent)
    requires
        keeper_next(s, e).0 == s,
        !(s == Keeper::CheckingStarted && e is StartedProbe),
    ensures
        keeper_next(s, e).1 is None,
{
}

/// The keeper only tries to connect when the radio is known to run: the
/// controller said it is started, or it was configured and started just
/// before.
pub proof fn lemma_connect_only_when_started(s: Keeper, e: KeeperEvent)
    requires
        keeper_next(s, e).0 == Keeper::Connecting,
        s != Keeper::Connecting,
    ensures
        (s == Keeper::CheckingStarted && e == KeeperEvent::StartedProbe(Probe::Started))
            || (s == Keeper::Starting && e == KeeperEvent::StartedUp(true)),
{
}

/// Every failure is reported, and after it the keeper starts its round
/// over: a failed configuration or start goes back to reading the station
/// state, a failed connection waits five seconds first.
pub proof fn lemma_failures_restart_the_round(s: Keeper)
    ensures
        s == Keeper::Configuring ==> keeper_next(s, KeeperEvent::Configured(false)) == (
            Keeper::CheckingState,
            Some(KeeperNotice::ConfigurationFailed),
        ),
        s == Keeper::Starting ==> keeper_next(s, KeeperEvent::StartedUp(false)) == (
            Keeper::CheckingState,
            Some(KeeperNotice::StartFailed),
        ),
        s == Keeper::Connecting ==> keeper_next(s, KeeperEvent::Joined(false)) == (
            Keeper::Backoff,
            Some(KeeperNotice::ConnectFailed),
        ),
        pending(Keeper::Backoff) == KeeperCommand::Sleep(RECONNECT_DELAY_MS),
        keeper_next(Keeper::Backoff, KeeperEvent::Slept).0 == Keeper::CheckingState,
{
}

/// While connected the keeper does nothing but wait for the disconnect
/// event, and then waits five seconds before checking the radio.
pub proof fn lemma_connected_waits_for_disconnect()
    ensures
        keeper_next(Keeper::CheckingState, KeeperEvent::State(true)).0 == Keeper::AwaitingDisconnect,
        pending(Keeper::AwaitingDisconnect) == KeeperCommand::WaitForDisconnect,
        keeper_next(Keeper::AwaitingDisconnect, KeeperEvent::Disconnected).0 == Keeper::Cooling,
        pending(Keeper::Cooling) == KeeperCommand::Sleep(RECONNECT_DELAY_MS),
        keeper_next(Keeper::Cooling, KeeperEvent::Slept).0 == Keeper::CheckingStarted,
{
}

} // verus!
