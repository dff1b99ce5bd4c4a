//! What holds of the handshake state machine in every state and over every
//! run of events.

use vstd::prelude::*;
use crate::event::AuthEvent;
use crate::session::{
    after_clock, after_disconnect, after_event, after_send_failure, after_spawn,
    after_spawn_failure, clock_reaction, failed, idle, reaction, refusal, started, well_formed,
    Action, Preflight, SessionError, SessionModel, SessionStatus, DEADLINE_MS, MAX_AUTH_ATTEMPTS,
    POLL_INTERVAL_MS,
};

verus! {

/// The state reached from `m` after the events of `events`, in order.
pub open spec fn replay(m: SessionModel, events: Seq<AuthEvent>) -> SessionModel
    decreases events.len(),
{
    if events.len() == 0 {
        m
    } else {
        replay(after_event(m, events[0]), events.drop_first())
    }
}

/// How often `wanted` is ordered while the events of `events` are handled
/// one after the other, starting in `m`.
pub open spec fn times_ordered(m: SessionModel, events: Seq<AuthEvent>, wanted: Action) -> nat
    decreases events.len(),
{
    if events.len() == 0 {
        0
    } else {
        let now: nat = if reaction(m, events[0]) == wanted {
            1
        } else {
            0
        };
        now + times_ordered(after_event(m, events[0]), events.drop_first(), wanted)
    }
}

/// Every step keeps a session well formed: it owns a process exactly while
/// it awaits authentication or is connected, and its count of answered
/// prompts stays within the cap.
pub proof fn lemma_steps_keep_well_formed(
    m: SessionModel,
    e: AuthEvent,
    elapsed_ms: u64,
    endpoint: Seq<char>,
)
    requires
        well_formed(m),
    ensures
        well_formed(idle()),
        well_formed(started(endpoint)),
        well_formed(failed(m)),
        well_formed(after_spawn(m)),
        well_formed(after_spawn_failure(m)),
        well_formed(after_event(m, e)),
        well_formed(after_clock(m, elapsed_ms)),
        well_formed(after_send_failure(m)),
        well_formed(after_disconnect(m)),
{
}

/// A run of events keeps a session well formed and never lowers its count of
/// answered prompts.
pub proof fn lemma_replay_keeps_well_formed(m: SessionModel, events: Seq<AuthEvent>)
    requires
        well_formed(m),
    ensures
        well_formed(replay(m, events)),
        m.attempts <= replay(m, events).attempts,
    decreases events.len(),
{
    if events.len() > 0 {
        lemma_replay_keeps_well_formed(after_event(m, events[0]), events.drop_first());
    }
}

/// Over any run of events, the user names and passwords sent again in answer
/// to prompts are, taken together, exactly as many as the count of answered
/// prompts has grown.
pub proof fn lemma_resends_are_counted(m: SessionModel, events: Seq<AuthEvent>)
    requires
        well_formed(m),
    ensures
        m.attempts + times_ordered(m, events, Action::SendUsername) + times_ordered(
            m,
            events,
            Action::PauseThenSendPassword,
        ) == replay(m, events).attempts,
    decreases events.len(),
{
    if events.len() > 0 {
        lemma_resends_are_counted(after_event(m, events[0]), events.drop_first());
    }
}

/// No event makes a session send the full credentials anew: that is done
/// once, when the client was spawned.
pub proof fn lemma_no_second_introduction(m: SessionModel, events: Seq<AuthEvent>)
    ensures
        times_ordered(m, events, Action::SendCredentials) == 0,
    decreases events.len(),
{
    if events.len() > 0 {
        lemma_no_second_introduction(after_event(m, events[0]), events.drop_first());
    }
}

/// Whatever events arrive and in whatever order, one session sends the user
/// name again at most [`MAX_AUTH_ATTEMPTS`] times and the password again at
/// most [`MAX_AUTH_ATTEMPTS`] times; indeed both together stay within that
/// cap.
pub proof fn lemma_resends_are_capped(m: SessionModel, events: Seq<AuthEvent>)
    requires
        well_formed(m),
    ensures
        times_ordered(m, events, Action::SendUsername) <= MAX_AUTH_ATTEMPTS,
        times_ordered(m, events, Action::PauseThenSendPassword) <= MAX_AUTH_ATTEMPTS,
        times_ordered(m, events, Action::SendUsername) + times_ordered(
            m,
            events,
            Action::PauseThenSendPassword,
        ) <= MAX_AUTH_ATTEMPTS - m.attempts,
{
    lemma_resends_are_counted(m, events);
    lemma_replay_keeps_well_formed(m, events);
}

/// While a session awaits authentication, the completion signal makes it
/// connected with its process still owned, and the failure signal makes it
/// failed with the process given up and ordered killed.
pub proof fn lemma_signals_decide(m: SessionModel)
    requires
        well_formed(m),
        m.status == SessionStatus::AwaitingAuth,
    ensures
        after_event(m, AuthEvent::ConnectedSignal).status == SessionStatus::Connected,
        after_event(m, AuthEvent::ConnectedSignal).live,
        after_event(m, AuthEvent::ConnectedSignal).endpoint == m.endpoint,
        reaction(m, AuthEvent::ConnectedSignal) == Action::Succeed,
        after_event(m, AuthEvent::AuthFailedSignal).status == SessionStatus::Failed,
        !after_event(m, AuthEvent::AuthFailedSignal).live,
        reaction(m, AuthEvent::AuthFailedSignal) == Action::Abort(
            SessionError::AuthenticationFailed,
        ),
{
}

/// A session that owns a process refuses every connection request as
/// `AlreadyConnected`, whatever the checks found, so no second process is
/// ever asked for while one is owned.
pub proof fn lemma_one_process_at_a_time(m: SessionModel, checks: Preflight)
    requires
        well_formed(m),
        m.live,
    ensures
        refusal(m, checks) == Some(SessionError::AlreadyConnected),
{
}

/// A session is told to wait only before the deadline, and a wait lasts one
/// poll interval at most: every wait that is ordered is over before the
/// deadline plus one poll interval. At the first look at the clock after
/// that, a session that still awaits authentication fails with
/// `ConnectionTimeout` and has its process killed.
pub proof fn lemma_waits_end_in_time(m: SessionModel, elapsed_ms: u64)
    requires
        well_formed(m),
        m.status == SessionStatus::AwaitingAuth,
    ensures
        clock_reaction(m, elapsed_ms) == Action::Wait ==> elapsed_ms + POLL_INTERVAL_MS
            < DEADLINE_MS + POLL_INTERVAL_MS,
        elapsed_ms >= DEADLINE_MS ==> clock_reaction(m, elapsed_ms) == Action::Abort(
            SessionError::ConnectionTimeout,
        ) && after_clock(m, elapsed_ms).status == SessionStatus::Failed && !after_clock(
            m,
            elapsed_ms,
        ).live,
{
}

/// One turn of the control loop: the clock reading at its start and the
/// event, if any, that the wait of this turn brought.
pub ghost struct Turn {
    pub elapsed_ms: u64,
    pub event: Option<AuthEvent>,
}

/// The state after one turn of the control loop: the session is shown the
/// clock and, where that orders a wait and the wait brings an event, the
/// event.
pub open spec fn after_turn(m: SessionModel, t: Turn) -> SessionModel {
    let looked = after_clock(m, t.elapsed_ms);
    if clock_reaction(m, t.elapsed_ms) == Action::Wait && t.event is Some {
        after_event(looked, t.event->0)
    } else {
        looked
    }
}

/// The state after the turns of `turns`, in order.
pub open spec fn after_turns(m: SessionModel, turns: Seq<Turn>) -> SessionModel
    decreases turns.len(),
{
    if turns.len() == 0 {
        m
    } else {
        after_turns(after_turn(m, turns[0]), turns.drop_first())
    }
}

/// A handshake that is over stays over, whatever the clock shows and
/// whatever events still arrive.
pub proof fn lemma_no_way_back_to_waiting(m: SessionModel, turns: Seq<Turn>)
    requires
        m.status != SessionStatus::AwaitingAuth,
    ensures
        after_turns(m, turns) == m,
    decreases turns.len(),
{
    if turns.len() > 0 {
        lemma_no_way_back_to_waiting(m, turns.drop_first());
    }
}

/// Whatever events arrive and whenever they do, the handshake is over once
/// the control loop has looked at the clock at or after the deadline: no
/// run of turns that holds such a look leaves the session waiting.
pub proof fn lemma_deadline_ends_the_handshake(m: SessionModel, turns: Seq<Turn>, k: int)
    requires
        0 <= k < turns.len(),
        turns[k].elapsed_ms >= DEADLINE_MS,
    ensures
        after_turns(m, turns).status != SessionStatus::AwaitingAuth,
    decreases turns.len(),
{
    let first = after_turn(m, turns[0]);
    if k == 0 {
        lemma_no_way_back_to_waiting(first, turns.drop_first());
    } else {
        assert(turns.drop_first()[k - 1] == turns[k]);
        lemma_deadline_ends_the_handshake(first, turns.drop_first(), k - 1);
    }
}

/// A session that nothing but the clock ever reaches fails with
/// `ConnectionTimeout` at the first look at or after the deadline, and not
/// before.
pub proof fn lemma_silence_times_out(m: SessionModel, elapsed_ms: u64)
    requires
        m.status == SessionStatus::AwaitingAuth,
    ensures
        elapsed_ms < DEADLINE_MS ==> after_clock(m, elapsed_ms) == m && clock_reaction(
            m,
            elapsed_ms,
        ) == Action::Wait,
        elapsed_ms >= DEADLINE_MS ==> after_clock(m, elapsed_ms) == failed(m) && clock_reaction(
            m,
            elapsed_ms,
        ) == Action::Abort(SessionError::ConnectionTimeout),
{
}

} // verus!
