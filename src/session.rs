use vstd::prelude::*;

use crate::addr::{HostIp, Target};
use crate::routes::RouteTable;

verus! {

/// How long a dial to an upstream target may take, in seconds.
pub const DIAL_TIMEOUT_SECS: u64 = 5;

/// One direction of a routed session.
#[derive(Clone, Copy, Debug, PartialEq, Eq, Structural)]
pub enum Direction {
    ClientToTarget,
    TargetToClient,
}

/// Why a session ended.
#[derive(Clone, Copy, Debug, PartialEq, Eq, Structural)]
pub enum CloseReason {
    /// No route is configured for the local address of the connection.
    NoRoute,
    /// The target could not be reached.
    DialFailed,
    /// The target did not answer within the dial timeout.
    DialTimedOut,
    /// Both relay directions have ended.
    RelaysEnded,
}

/// Where a session stands. A connection starts `Accepted`; its route is looked
/// up as soon as its local address is known, so the resolved route leads
/// straight to `Dialing`.
#[derive(Clone, Copy, Debug, PartialEq, Eq, Structural)]
pub enum Phase {
    Accepted,
    Dialing { target: Target },
    /// Bytes are copied both ways; each flag says whether that direction is
    /// still running.
    Relaying { target: Target, client_to_target: bool, target_to_client: bool },
    Closed { reason: CloseReason },
}

/// What happened to a session.
#[derive(Clone, Copy, Debug, PartialEq, Eq, Structural)]
pub enum Event {
    /// The inbound connection was accepted on local host `local`.
    Arrived { local: HostIp },
    /// The outbound connection to the target is open.
    Connected,
    /// The dial failed before the timeout.
    DialRefused,
    /// The dial did not complete within the timeout.
    DialTimedOut,
    /// One relay direction stopped: at the end of its source, or on an error.
    RelayEnded { direction: Direction, failed: bool },
}

/// What the session asks of the code that runs it.
#[derive(Clone, Copy, Debug, PartialEq, Eq, Structural)]
pub enum Action {
    /// Nothing to do until the next event.
    Wait,
    /// Open an outbound connection to `target`, giving up after `timeout_secs`.
    Dial { target: Target, timeout_secs: u64 },
    /// Start copying both ways between the two connections.
    StartRelays,
    /// Close the inbound connection without relaying any bytes.
    CloseInbound,
}

/// What the session reports to the log.
#[derive(Clone, Copy, Debug, PartialEq, Eq, Structural)]
pub enum Notice {
    Silent,
    /// Information: the connection on `local` is routed to `target`.
    Routing { local: HostIp, target: Target },
    /// Warning: no route for `local`.
    NoRoute { local: HostIp },
    /// Warning: the dial to `target` failed, or timed out.
    DialFailed { target: Target, timed_out: bool },
    /// Error: a relay direction stopped on an error.
    RelayFailed { direction: Direction },
}

/// The outcome of one event: the next phase, the action to take and what to
/// report.
#[derive(Clone, Copy, Debug, PartialEq, Eq, Structural)]
pub struct Step {
    pub phase: Phase,
    pub action: Action,
    pub notice: Notice,
}

/// The step that leaves a session where it is.
pub open spec fn stay(phase: Phase) -> Step {
    Step { phase, action: Action::Wait, notice: Notice::Silent }
}

/// The transitions of a session. An event that does not belong to the phase
/// leaves the session as it is.
pub open spec fn step_spec(routes: Map<HostIp, Target>, phase: Phase, event: Event) -> Step {
    match (phase, event) {
        (Phase::Accepted, Event::Arrived { local }) => {
            if routes.contains_key(local) {
                Step {
                    phase: Phase::Dialing { target: routes[local] },
                    action: Action::Dial { target: routes[local], timeout_secs: DIAL_TIMEOUT_SECS },
                    notice: Notice::Routing { local, target: routes[local] },
                }
            } else {
                Step {
                    phase: Phase::Closed { reason: CloseReason::NoRoute },
                    action: Action::CloseInbound,
                    notice: Notice::NoRoute { local },
                }
            }
        },
        (Phase::Dialing { target }, Event::Connected) => Step {
            phase: Phase::Relaying { target, client_to_target: true, target_to_client: true },
            action: Action::StartRelays,
            notice: Notice::Silent,
        },
        (Phase::Dialing { target }, Event::DialRefused) => Step {
            phase: Phase::Closed { reason: CloseReason::DialFailed },
            action: Action::CloseInbound,
            notice: Notice::DialFailed { target, timed_out: false },
        },
        (Phase::Dialing { target }, Event::DialTimedOut) => Step {
            phase: Phase::Closed { reason: CloseReason::DialTimedOut },
            action: Action::CloseInbound,
            notice: Notice::DialFailed { target, timed_out: true },
        },
        (
            Phase::Relaying { target, client_to_target, target_to_client },
            Event::RelayEnded { direction, failed },
        ) => {
            let c2t = client_to_target && direction != Direction::ClientToTarget;
            let t2c = target_to_client && direction != Direction::TargetToClient;
            Step {
                phase: if c2t || t2c {
                    Phase::Relaying { target, client_to_target: c2t, target_to_client: t2c }
                } else {
                    Phase::Closed { reason: CloseReason::RelaysEnded }
                },
                action: Action::Wait,
                notice: if failed {
                    Notice::RelayFailed { direction }
                } else {
                    Notice::Silent
                },
            }
        },
        _ => stay(phase),
    }
}

/// Advances a session by one event. The route of an arriving connection is
/// looked up in `table`, which the session only reads.
pub fn step(table: &RouteTable, phase: Phase, event: Event) -> (r: Step)
    requires
        table.wf(),
    ensures
        r == step_spec(table@, phase, event),
{
    match (phase, event) {
        (Phase::Accepted, Event::Arrived { local }) => {
            match table.resolve(&local) {
                Some(target) => Step {
                    phase: Phase::Dialing { target },
                    action: Action::Dial { target, timeout_secs: DIAL_TIMEOUT_SECS },
                    notice: Notice::Routing { local, target },
                },
                None => Step {
                    phase: Phase::Closed { reason: CloseReason::NoRoute },
                    action: Action::CloseInbound,
                    notice: Notice::NoRoute { local },
                },
            }
        },
        (Phase::Dialing { target }, Event::Connected) => Step {
            phase: Phase::Relaying { target, client_to_target: true, target_to_client: true },
            action: Action::StartRelays,
            notice: Notice::Silent,
        },
        (Phase::Dialing { target }, Event::DialRefused) => Step {
            phase: Phase::Closed { reason: CloseReason::DialFailed },
            action: Action::CloseInbound,
            notice: Notice::DialFailed { target, timed_out: false },
        },
        (Phase::Dialing { target }, Event::DialTimedOut) => Step {
            phase: Phase::Closed { reason: CloseReason::DialTimedOut },
            action: Action::CloseInbound,
            notice: Notice::DialFailed { target, timed_out: true },
        },
        (
            Phase::Relaying { target, client_to_target, target_to_client },
            Event::RelayEnded { direction, failed },
        ) => {
            let c2t = client_to_target && direction != Direction::ClientToTarget;
            let t2c = target_to_client && direction != Direction::TargetToClient;
            let next = if c2t || t2c {
                Phase::Relaying { target, client_to_target: c2t, target_to_client: t2c }
            } else {
                Phase::Closed { reason: CloseReason::RelaysEnded }
            };
            let notice = if failed {
                Notice::RelayFailed { direction }
            } else {
                Notice::Silent
            };
            Step { phase: next, action: Action::Wait, notice }
        },
        _ => Step { phase, action: Action::Wait, notice: Notice::Silent },
    }
}

/// A connection that arrives on a host with a route is dialed to exactly that
/// route's target, with the dial timeout.
pub proof fn lemma_routed_connection_dials_target(routes: Map<HostIp, Target>, local: HostIp)
    requires
        routes.contains_key(local),
    ensures
        step_spec(routes, Phase::Accepted, Event::Arrived { local }).action == (Action::Dial {
            target: routes[local],
            timeout_secs: DIAL_TIMEOUT_SECS,
        }),
        step_spec(routes, Phase::Accepted, Event::Arrived { local }).phase == (Phase::Dialing {
            target: routes[local],
        }),
{
}

/// A session dials only when a connection arrives on a host with a route, and
/// then to that route's target, with the dial timeout: no step in any phase
/// dials anywhere else or waits longer.
pub proof fn lemma_dial_only_to_route(routes: Map<HostIp, Target>, phase: Phase, event: Event)
    ensures
        step_spec(routes, phase, event).action is Dial ==> {
            &&& phase == Phase::Accepted
            &&& event is Arrived
            &&& routes.contains_key(event->local)
            &&& step_spec(routes, phase, event).action == (Action::Dial {
                target: routes[event->local],
                timeout_secs: DIAL_TIMEOUT_SECS,
            })
        },
{
}

/// A connection that arrives on a host without a route is closed, with a
/// warning, and no dial is made.
pub proof fn lemma_unrouted_connection_closes(routes: Map<HostIp, Target>, local: HostIp)
    requires
        !routes.contains_key(local),
    ensures
        step_spec(routes, Phase::Accepted, Event::Arrived { local }) == (Step {
            phase: Phase::Closed { reason: CloseReason::NoRoute },
            action: Action::CloseInbound,
            notice: Notice::NoRoute { local },
        }),
{
}

/// With no routes at all, every connection is closed on arrival with a
/// warning, and no dial is made.
pub proof fn lemma_empty_table_closes_all(local: HostIp)
    ensures
        step_spec(Map::empty(), Phase::Accepted, Event::Arrived { local }) == (Step {
            phase: Phase::Closed { reason: CloseReason::NoRoute },
            action: Action::CloseInbound,
            notice: Notice::NoRoute { local },
        }),
{
}

/// A closed session stays closed whatever happens next: it never dials and
/// never starts relaying.
pub proof fn lemma_closed_is_final(routes: Map<HostIp, Target>, reason: CloseReason, event: Event)
    ensures
        step_spec(routes, Phase::Closed { reason }, event) == stay(Phase::Closed { reason }),
{
}

/// A dial that fails closes the inbound connection, and one that does not
/// complete within the timeout is given up in the same way; either failure is
/// reported with its target. Relaying starts on no other event than a
/// completed dial, so no byte is relayed after a failed one.
pub proof fn lemma_failed_dial_closes(
    routes: Map<HostIp, Target>,
    target: Target,
    phase: Phase,
    event: Event,
)
    ensures
        step_spec(routes, Phase::Dialing { target }, Event::DialRefused) == (Step {
            phase: Phase::Closed { reason: CloseReason::DialFailed },
            action: Action::CloseInbound,
            notice: Notice::DialFailed { target, timed_out: false },
        }),
        step_spec(routes, Phase::Dialing { target }, Event::DialTimedOut) == (Step {
            phase: Phase::Closed { reason: CloseReason::DialTimedOut },
            action: Action::CloseInbound,
            notice: Notice::DialFailed { target, timed_out: true },
        }),
        step_spec(routes, phase, event).action == Action::StartRelays ==> phase is Dialing
            && event == Event::Connected,
{
}

/// The two relay directions end independently: when one ends, the other keeps
/// running, and the session closes only when both have ended. The end of a
/// source is reported as no error.
pub proof fn lemma_directions_independent(
    routes: Map<HostIp, Target>,
    target: Target,
    direction: Direction,
    failed: bool,
)
    ensures
        ({
            let r = step_spec(
                routes,
                Phase::Relaying { target, client_to_target: true, target_to_client: true },
                Event::RelayEnded { direction, failed },
            );
            &&& r.action == Action::Wait
            &&& r.phase == (Phase::Relaying {
                target,
                client_to_target: direction == Direction::TargetToClient,
                target_to_client: direction == Direction::ClientToTarget,
            })
            &&& !failed ==> r.notice == Notice::Silent
        }),
        ({
            let r = step_spec(
                routes,
                Phase::Relaying {
                    target,
                    client_to_target: direction == Direction::ClientToTarget,
                    target_to_client: direction == Direction::TargetToClient,
                },
                Event::RelayEnded { direction, failed },
            );
            &&& r.action == Action::Wait
            &&& r.phase == Phase::Closed { reason: CloseReason::RelaysEnded }
        }),
{
}

/// The phases of many sessions after `event` happens to session `id`.
pub open spec fn advance(
    routes: Map<HostIp, Target>,
    sessions: Map<u64, Phase>,
    id: u64,
    event: Event,
) -> Map<u64, Phase> {
    sessions.insert(id, step_spec(routes, sessions[id], event).phase)
}

/// Sessions do not interfere: what happens to one session, an error or a
/// close included, leaves every other session as it was. The routes are only
/// read.
pub proof fn lemma_sessions_isolated(
    routes: Map<HostIp, Target>,
    sessions: Map<u64, Phase>,
    id: u64,
    event: Event,
    other: u64,
)
    requires
        sessions.contains_key(id),
        sessions.contains_key(other),
        other != id,
    ensures
        advance(routes, sessions, id, event).contains_key(other),
        advance(routes, sessions, id, event)[other] == sessions[other],
        advance(routes, sessions, id, event).dom() == sessions.dom(),
{
}

} // verus!
