use vstd::prelude::*;

verus! {

/// Seconds the supervisor waits in `Recovering` before re-entering
/// catch-up.
pub const RETRY_DELAY_SECS: u64 = 10;

/// The supervisor's states. `Stopped` is terminal and is only reached
/// from `Idle`: a failure before the first catch-up (bad configuration,
/// failed login, unresolvable room) ends the relay, anything later is
/// retried forever.
#[derive(Clone, Copy, Debug, PartialEq, Eq, Structural)]
pub enum RelayState {
    Idle,
    CatchingUp,
    Live,
    Recovering,
    Stopped,
}

/// What the surroundings report to the supervisor.
#[derive(Clone, Copy, Debug, PartialEq, Eq, Structural)]
pub enum RelayEvent {
    /// The cursor is loaded, the room resolved and the application
    /// table fetched.
    SessionReady,
    /// Every backlog message was delivered and the cursor advanced.
    BacklogDrained,
    /// Fetching, rendering or delivering some message failed.
    Fault,
    /// The recovery delay has elapsed.
    DelayElapsed,
}

/// What the supervisor asks the surroundings to do next.
#[derive(Clone, Copy, Debug, PartialEq, Eq, Structural)]
pub enum RelayAction {
    /// Re-read the persisted cursor and walk the backlog.
    FetchBacklog,
    /// Consume the live message stream.
    AwaitLive,
    /// Wait `RETRY_DELAY_SECS`, then report `DelayElapsed`.
    Sleep,
    /// Terminate the relay.
    Exit,
    /// Nothing: the event does not concern the current state.
    Hold,
}

/// The supervisor's transition table.
pub open spec fn next_state(s: RelayState, e: RelayEvent) -> RelayState {
    match (s, e) {
        (RelayState::Idle, RelayEvent::SessionReady) => RelayState::CatchingUp,
        (RelayState::Idle, RelayEvent::Fault) => RelayState::Stopped,
        (RelayState::CatchingUp, RelayEvent::BacklogDrained) => RelayState::Live,
        (RelayState::CatchingUp, RelayEvent::Fault) => RelayState::Recovering,
        (RelayState::Live, RelayEvent::Fault) => RelayState::Recovering,
        (RelayState::Recovering, RelayEvent::DelayElapsed) => RelayState::CatchingUp,
        (RelayState::Recovering, RelayEvent::Fault) => RelayState::Recovering,
        (RelayState::Stopped, _) => RelayState::Stopped,
        (_, _) => s,
    }
}

/// The action accompanying each transition.
pub open spec fn next_action(s: RelayState, e: RelayEvent) -> RelayAction {
    match (s, e) {
        (RelayState::Idle, RelayEvent::SessionReady) => RelayAction::FetchBacklog,
        (RelayState::Idle, RelayEvent::Fault) => RelayAction::Exit,
        (RelayState::CatchingUp, RelayEvent::BacklogDrained) => RelayAction::AwaitLive,
        (RelayState::CatchingUp, RelayEvent::Fault) => RelayAction::Sleep,
        (RelayState::Live, RelayEvent::Fault) => RelayAction::Sleep,
        (RelayState::Recovering, RelayEvent::DelayElapsed) => RelayAction::FetchBacklog,
        (RelayState::Recovering, RelayEvent::Fault) => RelayAction::Sleep,
        (RelayState::Stopped, _) => RelayAction::Exit,
        (_, _) => RelayAction::Hold,
    }
}

impl RelayState {
    /// One supervisor step: the state after the event, and what the
    /// surroundings should do next.
    pub fn step(self, event: RelayEvent) -> (r: (RelayState, RelayAction))
        ensures
            r.0 == next_state(self, event),
            r.1 == next_action(self, event),
    {
        match (self, event) {
            (RelayState::Idle, RelayEvent::SessionReady) => (
                RelayState::CatchingUp,
                RelayAction::FetchBacklog,
            ),
            (RelayState::Idle, RelayEvent::Fault) => (RelayState::Stopped, RelayAction::Exit),
            (RelayState::CatchingUp, RelayEvent::BacklogDrained) => (
                RelayState::Live,
                RelayAction::AwaitLive,
            ),
            (RelayState::CatchingUp, RelayEvent::Fault) => (
                RelayState::Recovering,
                RelayAction::Sleep,
            ),
            (RelayState::Live, RelayEvent::Fault) => (RelayState::Recovering, RelayAction::Sleep),
            (RelayState::Recovering, RelayEvent::DelayElapsed) => (
                RelayState::CatchingUp,
                RelayAction::FetchBacklog,
            ),
            (RelayState::Recovering, RelayEvent::Fault) => (
                RelayState::Recovering,
                RelayAction::Sleep,
            ),
            (RelayState::Stopped, _) => (RelayState::Stopped, RelayAction::Exit),
            (s, _) => (s, RelayAction::Hold),
        }
    }
}

/// Once relaying has begun, the supervisor never terminates: no event
/// leads from `CatchingUp`, `Live` or `Recovering` to `Stopped`.
pub proof fn lemma_no_stop_after_startup(s: RelayState, e: RelayEvent)
    requires
        s != RelayState::Idle,
        s != RelayState::Stopped,
    ensures
        next_state(s, e) != RelayState::Stopped,
{
}

/// Recovery always rejoins the relay loop: from `Recovering` the only
/// reachable states are `Recovering` itself and `CatchingUp`, and the
/// elapsed delay re-enters catch-up with a backlog fetch.
pub proof fn lemma_recovering_rejoins(e: RelayEvent)
    ensures
        next_state(RelayState::Recovering, e) == RelayState::Recovering || next_state(
            RelayState::Recovering,
            e,
        ) == RelayState::CatchingUp,
        next_state(RelayState::Recovering, RelayEvent::DelayElapsed) == RelayState::CatchingUp,
        next_action(RelayState::Recovering, RelayEvent::DelayElapsed)
            == RelayAction::FetchBacklog,
{
}

/// Any fault after startup is answered with the fixed backoff, never
/// with an exit.
pub proof fn lemma_faults_backoff(s: RelayState)
    requires
        s == RelayState::CatchingUp || s == RelayState::Live || s == RelayState::Recovering,
    ensures
        next_state(s, RelayEvent::Fault) == RelayState::Recovering,
        next_action(s, RelayEvent::Fault) == RelayAction::Sleep,
{
}

/// One step of a delivery: what to send, which cursor value to
/// persist, and which upstream message to delete.
#[derive(Clone, Copy, Debug, PartialEq, Eq, Structural)]
pub enum DeliveryStep {
    /// Send the rendered content to the destination room.
    SendContent,
    /// Persist the given identifier as the new cursor.
    PersistCursor(i64),
    /// Delete the given message upstream.
    DeleteUpstream(i64),
}

/// The ordered steps of delivering one message. Each step runs only
/// after the previous one succeeded; a failure abandons the rest and
/// surfaces as a `Fault`. The cursor is persisted before any upstream
/// deletion, so a crash between the two re-delivers nothing; the
/// deletion appears exactly once, and only when configured.
pub fn delivery_plan(id: i64, delete_sent: bool) -> (r: Vec<DeliveryStep>)
    ensures
        delete_sent ==> r@ == seq![
            DeliveryStep::SendContent,
            DeliveryStep::PersistCursor(id),
            DeliveryStep::DeleteUpstream(id),
        ],
        !delete_sent ==> r@ == seq![
            DeliveryStep::SendContent,
            DeliveryStep::PersistCursor(id),
        ],
{
    let mut r: Vec<DeliveryStep> = Vec::new();
    r.push(DeliveryStep::SendContent);
    r.push(DeliveryStep::PersistCursor(id));
    if delete_sent {
        r.push(DeliveryStep::DeleteUpstream(id));
        proof {
            assert(r@ =~= seq![
                DeliveryStep::SendContent,
                DeliveryStep::PersistCursor(id),
                DeliveryStep::DeleteUpstream(id),
            ]);
        }
    } else {
        proof {
            assert(r@ =~= seq![
                DeliveryStep::SendContent,
                DeliveryStep::PersistCursor(id),
            ]);
        }
    }
    r
}

} // verus!
