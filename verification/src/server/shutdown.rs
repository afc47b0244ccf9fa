//! The order in which the server stops.

use vstd::prelude::*;

verus! {

/// How long open connections are waited for.
pub const GRPC_SHUTDOWN_TIMEOUT_MS: u64 = 3_000;

/// How far the server is with stopping.
#[derive(Clone, Copy, PartialEq, Eq, Debug, Structural)]
pub enum ShutdownState {
    /// Both tasks run.
    Running,
    /// The gRPC server was told to stop and is waited for.
    StoppingGrpc,
    /// The gRPC server did not stop in time, was aborted and is waited for.
    AbortingGrpc,
    /// The engine was told to stop and is waited for.
    StoppingEngine,
    Stopped,
}

/// What happens while the server runs or stops.
#[derive(Clone, Copy, PartialEq, Eq, Debug, Structural)]
pub enum ShutdownEvent {
    Interrupted,
    /// The task of the gRPC server has ended.
    GrpcFinished,
    /// The task of the engine has ended.
    EngineFinished,
    /// Time has passed since the gRPC server was told to stop.
    Tick { elapsed_ms: u64 },
}

/// What is to be done.
#[derive(Clone, Copy, PartialEq, Eq, Debug, Structural)]
pub enum ShutdownAction {
    Wait,
    TellGrpc,
    AbortGrpc,
    TellEngine,
}

/// What follows from an event: an interrupt stops the gRPC server, which is given some
/// time, and once it has ended the engine; a task that ends by itself has the other one
/// told, which is not waited for.
pub open spec fn shutdown_step(state: ShutdownState, event: ShutdownEvent) -> (
    ShutdownState,
    ShutdownAction,
) {
    match (state, event) {
        (ShutdownState::Running, ShutdownEvent::Interrupted) => (
            ShutdownState::StoppingGrpc,
            ShutdownAction::TellGrpc,
        ),
        (ShutdownState::Running, ShutdownEvent::GrpcFinished) => (
            ShutdownState::Stopped,
            ShutdownAction::TellEngine,
        ),
        (ShutdownState::Running, ShutdownEvent::EngineFinished) => (
            ShutdownState::Stopped,
            ShutdownAction::TellGrpc,
        ),
        (ShutdownState::StoppingGrpc, ShutdownEvent::GrpcFinished) => (
            ShutdownState::StoppingEngine,
            ShutdownAction::TellEngine,
        ),
        (ShutdownState::StoppingGrpc, ShutdownEvent::Tick { elapsed_ms }) => if elapsed_ms
            >= GRPC_SHUTDOWN_TIMEOUT_MS {
            (ShutdownState::AbortingGrpc, ShutdownAction::AbortGrpc)
        } else {
            (state, ShutdownAction::Wait)
        },
        (ShutdownState::AbortingGrpc, ShutdownEvent::GrpcFinished) => (
            ShutdownState::StoppingEngine,
            ShutdownAction::TellEngine,
        ),
        (ShutdownState::StoppingEngine, ShutdownEvent::EngineFinished) => (
            ShutdownState::Stopped,
            ShutdownAction::Wait,
        ),
        _ => (state, ShutdownAction::Wait),
    }
}

impl ShutdownState {
    pub fn on_event(&mut self, event: ShutdownEvent) -> (action: ShutdownAction)
        ensures
            (*final(self), action) == shutdown_step(*old(self), event),
    {
        let (next, action) = match (*self, event) {
            (ShutdownState::Running, ShutdownEvent::Interrupted) => (
                ShutdownState::StoppingGrpc,
                ShutdownAction::TellGrpc,
            ),
            (ShutdownState::Running, ShutdownEvent::GrpcFinished) => (
                ShutdownState::Stopped,
                ShutdownAction::TellEngine,
            ),
            (ShutdownState::Running, ShutdownEvent::EngineFinished) => (
                ShutdownState::Stopped,
                ShutdownAction::TellGrpc,
            ),
            (ShutdownState::StoppingGrpc, ShutdownEvent::GrpcFinished) => (
                ShutdownState::StoppingEngine,
                ShutdownAction::TellEngine,
            ),
            (ShutdownState::StoppingGrpc, ShutdownEvent::Tick { elapsed_ms }) => {
                if elapsed_ms >= GRPC_SHUTDOWN_TIMEOUT_MS {
                    (ShutdownState::AbortingGrpc, ShutdownAction::AbortGrpc)
                } else {
                    (ShutdownState::StoppingGrpc, ShutdownAction::Wait)
                }
            },
            (ShutdownState::AbortingGrpc, ShutdownEvent::GrpcFinished) => (
                ShutdownState::StoppingEngine,
                ShutdownAction::TellEngine,
            ),
            (ShutdownState::StoppingEngine, ShutdownEvent::EngineFinished) => (
                ShutdownState::Stopped,
                ShutdownAction::Wait,
            ),
            (state, _) => (state, ShutdownAction::Wait),
        };
        *self = next;
        action
    }
}

/// The state after the events, from a server that runs.
pub open spec fn state_after(events: Seq<ShutdownEvent>) -> ShutdownState
    decreases events.len(),
{
    if events.len() == 0 {
        ShutdownState::Running
    } else {
        shutdown_step(state_after(events.drop_last()), events.last()).0
    }
}

/// The engine is told to stop only once the gRPC task has ended, and told once at most.
pub proof fn engine_is_told_after_grpc(events: Seq<ShutdownEvent>)
    requires
        events.len() > 0,
        shutdown_step(state_after(events.drop_last()), events.last()).1
            == ShutdownAction::TellEngine,
    ensures
        events.last() == ShutdownEvent::GrpcFinished,
        forall|k: int|
            0 <= k < events.len() - 1 ==> shutdown_step(
                #[trigger] state_after(events.take(k)),
                events[k],
            ).1 != ShutdownAction::TellEngine,
{
    let n = events.len() - 1;
    assert(events.drop_last() =~= events.take(n));
    assert forall|k: int| 0 <= k < n implies shutdown_step(
        #[trigger] state_after(events.take(k)),
        events[k],
    ).1 != ShutdownAction::TellEngine by {
        if shutdown_step(state_after(events.take(k)), events[k]).1 == ShutdownAction::TellEngine {
            assert(events.take(k + 1).drop_last() =~= events.take(k));
            assert(events.take(k + 1).last() == events[k]);
            lemma_stays_told(events, k + 1, n);
        }
    }
}

/// The engine was told, or there is nothing more to do.
spec fn is_past_grpc(state: ShutdownState) -> bool {
    state == ShutdownState::StoppingEngine || state == ShutdownState::Stopped
}

proof fn lemma_stays_told(events: Seq<ShutdownEvent>, from: int, to: int)
    requires
        0 <= from <= to <= events.len(),
        is_past_grpc(state_after(events.take(from))),
    ensures
        is_past_grpc(state_after(events.take(to))),
    decreases to - from,
{
    if from < to {
        lemma_stays_told(events, from, to - 1);
        assert(events.take(to).drop_last() =~= events.take(to - 1));
    }
}

/// After an interrupt the gRPC server is told first, is aborted only when its time is over,
/// and the engine is waited for before the server has stopped.
pub proof fn interrupted_server_stops_in_order(event: ShutdownEvent)
    ensures
        shutdown_step(ShutdownState::Running, ShutdownEvent::Interrupted) == (
            ShutdownState::StoppingGrpc,
            ShutdownAction::TellGrpc,
        ),
        shutdown_step(ShutdownState::StoppingGrpc, event).1 == ShutdownAction::AbortGrpc <==> (
        event matches ShutdownEvent::Tick { elapsed_ms } && elapsed_ms
            >= GRPC_SHUTDOWN_TIMEOUT_MS),
        shutdown_step(ShutdownState::StoppingEngine, event).0 == ShutdownState::Stopped <==> event
            == ShutdownEvent::EngineFinished,
{
}

/// A server that has stopped does nothing more, and a task that ends by itself has the other
/// one told: the engine where the gRPC server ended, and the gRPC server where the engine did.
pub proof fn ended_tasks_have_the_other_told(event: ShutdownEvent)
    ensures
        shutdown_step(ShutdownState::Stopped, event) == (
            ShutdownState::Stopped,
            ShutdownAction::Wait,
        ),
        shutdown_step(ShutdownState::Running, ShutdownEvent::GrpcFinished) == (
            ShutdownState::Stopped,
            ShutdownAction::TellEngine,
        ),
        shutdown_step(ShutdownState::Running, ShutdownEvent::EngineFinished) == (
            ShutdownState::Stopped,
            ShutdownAction::TellGrpc,
        ),
        event is Tick ==> shutdown_step(ShutdownState::Running, event) == (
            ShutdownState::Running,
            ShutdownAction::Wait,
        ),
{
}

/// The gRPC server is waited for three seconds. Once it has ended, aborted or not, the engine
/// is told and waited for; nothing else moves a server that is stopping.
pub proof fn stopping_server_waits_its_turn(event: ShutdownEvent)
    ensures
        ({
            let stopping = shutdown_step(ShutdownState::StoppingGrpc, event);
            let aborting = shutdown_step(ShutdownState::AbortingGrpc, event);
            let ending = shutdown_step(ShutdownState::StoppingEngine, event);
            let told = (ShutdownState::StoppingEngine, ShutdownAction::TellEngine);
            &&& event is GrpcFinished ==> stopping == told && aborting == told
            &&& (event matches ShutdownEvent::Tick { elapsed_ms } ==> (elapsed_ms >= 3_000
                ==> stopping == (ShutdownState::AbortingGrpc, ShutdownAction::AbortGrpc)) && (
            elapsed_ms < 3_000 ==> stopping == (
                ShutdownState::StoppingGrpc,
                ShutdownAction::Wait,
            )))
            &&& event is Interrupted || event is EngineFinished ==> stopping == (
                ShutdownState::StoppingGrpc,
                ShutdownAction::Wait,
            )
            &&& !(event is GrpcFinished) ==> aborting == (
                ShutdownState::AbortingGrpc,
                ShutdownAction::Wait,
            )
            &&& ending.1 == ShutdownAction::Wait
            &&& ending.0 == if event is EngineFinished {
                ShutdownState::Stopped
            } else {
                ShutdownState::StoppingEngine
            }
        }),
{
}

/// Events are taken one after the other, from a server that runs.
pub proof fn events_are_taken_in_turn(events: Seq<ShutdownEvent>, event: ShutdownEvent)
    ensures
        state_after(Seq::empty()) == ShutdownState::Running,
        state_after(events.push(event)) == shutdown_step(state_after(events), event).0,
{
    assert(events.push(event).drop_last() =~= events);
}

} // verus!
