//! The two-way stream between a driver and the server.
//!
//! The stream is a state machine. It is told what came in and what the engine
//! answered, and says what is to be done next; the caller does it.

use vstd::prelude::*;
use crate::engine::{
    worker_status, EngineCommandTarget, EngineRuntimeState, EngineWorkerError, TargetView,
};
use crate::float_bits::{F32Bits, HALF_BITS, ONE_BITS, ZERO_BITS};
use crate::mappers::{
    controls_from_proto, engine_controls, engine_gear_shift_to_proto, wire_shift, Controls,
    EngineGearShift, WireControls, WireGearShift,
};
use crate::mode::BackendMode;
use crate::race::frame_hub::{cars_ascend, RuntimeCarFrame, RuntimeFrame};
use crate::race::runtime_store::{
    capped_sum, later, pit_snapshot, CarRecordView, PitView, RaceRuntimeStore,
    RuntimeControlInputSnapshot, RuntimePitStateSnapshot, RuntimePitTireType, StoreView,
    EMERGENCY_PIT_LOCK_MS, TELEPORT_IDLE_WINDOW_MS,
};
use crate::race::stream_settings::{
    build_stream_settings, is_participant_map, is_rate, resolve_participant_map_id,
    resolve_participant_rate, resolve_view, settings_match, allowed_view, smaller, view_rank,
    SpectatorView, StreamRate, StreamSettings, ViewDowngradeReason, MAX_STREAM_HZ,
    PARTICIPANT_REQUESTED_HZ,
};
use crate::status::{Code, Status};
use crate::telemetry::{
    kinematics_of, participant_opponent_state, participant_self_state, shows_car, shows_ghost_mode,
    CommandCooldownState, ParticipantOpponentState, ParticipantSelfState, VehicleState,
};

verus! {

/// Why a driver's car is cleaned up when the stream ends.
#[derive(Clone, Copy, PartialEq, Eq, Debug, Structural)]
pub enum CleanupReason {
    Disconnect,
    ClientStreamError,
    EmptyPayload,
    DuplicateInit,
    InitialSendFailed,
    BootstrapSendFailed,
    ControlsBeforeInit,
    CommandBeforeInit,
    InvalidControls,
    SetControlsFailed,
    AckSendFailed,
    CommandAckSendFailed,
    SelfMissing,
    SelfTargetChanged,
    SelfEngineIdChanged,
    SnapshotSendFailed,
}

/// The label under which a reason is logged.
pub open spec fn reason_label(reason: CleanupReason) -> Seq<char> {
    match reason {
        CleanupReason::Disconnect => "disconnect"@,
        CleanupReason::ClientStreamError => "client-stream-error"@,
        CleanupReason::EmptyPayload => "invalid-message-empty-payload"@,
        CleanupReason::DuplicateInit => "duplicate-init"@,
        CleanupReason::InitialSendFailed => "initial-send-failed"@,
        CleanupReason::BootstrapSendFailed => "bootstrap-send-failed"@,
        CleanupReason::ControlsBeforeInit => "controls-before-init"@,
        CleanupReason::CommandBeforeInit => "command-before-init"@,
        CleanupReason::InvalidControls => "invalid-controls"@,
        CleanupReason::SetControlsFailed => "set-controls-failed"@,
        CleanupReason::AckSendFailed => "ack-send-failed"@,
        CleanupReason::CommandAckSendFailed => "command-ack-send-failed"@,
        CleanupReason::SelfMissing => "self-missing"@,
        CleanupReason::SelfTargetChanged => "self-target-changed"@,
        CleanupReason::SelfEngineIdChanged => "self-engine-id-changed"@,
        CleanupReason::SnapshotSendFailed => "snapshot-send-failed"@,
    }
}

impl CleanupReason {
    pub fn label(self) -> (r: &'static str)
        ensures
            r@ == reason_label(self),
            self is Disconnect ==> r@ == "disconnect"@,
            self is ClientStreamError ==> r@ == "client-stream-error"@,
            self is EmptyPayload ==> r@ == "invalid-message-empty-payload"@,
            self is DuplicateInit ==> r@ == "duplicate-init"@,
            self is InitialSendFailed ==> r@ == "initial-send-failed"@,
            self is BootstrapSendFailed ==> r@ == "bootstrap-send-failed"@,
            self is ControlsBeforeInit ==> r@ == "controls-before-init"@,
            self is CommandBeforeInit ==> r@ == "command-before-init"@,
            self is InvalidControls ==> r@ == "invalid-controls"@,
            self is SetControlsFailed ==> r@ == "set-controls-failed"@,
            self is AckSendFailed ==> r@ == "ack-send-failed"@,
            self is CommandAckSendFailed ==> r@ == "command-ack-send-failed"@,
            self is SelfMissing ==> r@ == "self-missing"@,
            self is SelfTargetChanged ==> r@ == "self-target-changed"@,
            self is SelfEngineIdChanged ==> r@ == "self-engine-id-changed"@,
            self is SnapshotSendFailed ==> r@ == "snapshot-send-failed"@,
    {
        match self {
            CleanupReason::Disconnect => "disconnect",
            CleanupReason::ClientStreamError => "client-stream-error",
            CleanupReason::EmptyPayload => "invalid-message-empty-payload",
            CleanupReason::DuplicateInit => "duplicate-init",
            CleanupReason::InitialSendFailed => "initial-send-failed",
            CleanupReason::BootstrapSendFailed => "bootstrap-send-failed",
            CleanupReason::ControlsBeforeInit => "controls-before-init",
            CleanupReason::CommandBeforeInit => "command-before-init",
            CleanupReason::InvalidControls => "invalid-controls",
            CleanupReason::SetControlsFailed => "set-controls-failed",
            CleanupReason::AckSendFailed => "ack-send-failed",
            CleanupReason::CommandAckSendFailed => "command-ack-send-failed",
            CleanupReason::SelfMissing => "self-missing",
            CleanupReason::SelfTargetChanged => "self-target-changed",
            CleanupReason::SelfEngineIdChanged => "self-engine-id-changed",
            CleanupReason::SnapshotSendFailed => "snapshot-send-failed",
        }
    }
}

#[derive(Clone, Copy, PartialEq, Eq, Debug, Structural)]
pub enum ParticipantCommandType {
    BackToTrack,
    EmergencyPitstop,
    SetNextPitTireType,
}

#[derive(Clone, Copy, PartialEq, Eq, Debug, Structural)]
pub enum ParticipantCommandStatus {
    Accepted,
    Rejected,
}

#[derive(Clone, Copy, PartialEq, Eq, Debug, Structural)]
pub enum ParticipantCommandRejectReason {
    Unspecified,
    NotAllowed,
    CooldownActive,
    InPit,
}

/// The answer to a driver's command.
#[derive(Clone, Copy, PartialEq, Eq, Debug, Structural)]
pub struct ParticipantCommandAck {
    pub client_seq: u64,
    pub command_type: ParticipantCommandType,
    pub status: ParticipantCommandStatus,
    pub applies_from_tick: u64,
    pub rejected_reason: ParticipantCommandRejectReason,
    pub cooldown_remaining_ms: u32,
}

/// The answer to a driver's controls.
#[derive(Clone, Copy, PartialEq, Eq, Debug, Structural)]
pub struct ParticipantControlsAck {
    pub client_seq: u64,
    pub applies_from_tick: u64,
    pub accepted_shift: WireGearShift,
}

/// The size of a car.
#[derive(Clone, Copy, PartialEq, Eq, Debug, Structural)]
pub struct CarDimensions {
    pub width_m: F32Bits,
    pub depth_m: F32Bits,
}

/// What a driver sees of a frame: its own car and the opponents.
#[derive(Debug)]
pub struct ParticipantSnapshot {
    pub tick: u64,
    pub server_time_ms: u64,
    pub me: ParticipantSelfState,
    pub opponents: Vec<ParticipantOpponentState>,
}

#[derive(Debug)]
pub enum ParticipantServerPayload {
    Settings(StreamSettings),
    Bootstrap(Option<CarDimensions>),
    Ack(ParticipantControlsAck),
    CommandAck(ParticipantCommandAck),
    Snapshot(ParticipantSnapshot),
}

/// A message to the driver. The messages of a stream are numbered from 1.
#[derive(Debug)]
pub struct ParticipantServerEvent {
    pub server_seq: u64,
    pub payload: ParticipantServerPayload,
}

/// A message from the driver.
#[derive(Debug)]
pub enum ParticipantClientPayload {
    Init,
    Controls { client_seq: u64, controls: WireControls },
    BackToTrack { client_seq: u64 },
    EmergencyPitstop { client_seq: u64 },
    SetNextPitTireType { client_seq: u64, next_tire_type: Option<RuntimePitTireType> },
}

/// What the stream looks at when a message comes in.
#[derive(Clone, Copy, Debug)]
pub struct StreamFacts {
    pub tick: u64,
    pub server_time_ms: u64,
    /// The local race takes no commands now.
    pub local_race_closed: bool,
    pub back_to_track_cooldown_ms: u32,
    pub emergency_pitstop_cooldown_ms: u32,
    /// The car is in any zone of the pit.
    pub in_pit: bool,
}

/// Controls that were handed to the engine and wait for its answer.
#[derive(Clone, Copy, PartialEq, Eq, Debug, Structural)]
pub struct PendingControls {
    pub client_seq: u64,
    pub applies_from_tick: u64,
    pub requested: Controls,
}

/// A command that was handed to the engine and waits for its answer.
#[derive(Clone, Copy, PartialEq, Eq, Debug, Structural)]
pub struct PendingCommand {
    pub client_seq: u64,
    pub applies_from_tick: u64,
    pub server_time_ms: u64,
}

/// What is to be done next.
#[derive(Debug)]
#[allow(inconsistent_fields)]
pub enum StreamAction {
    /// Nothing.
    Wait,
    /// Report the status to the driver, where there is one, clean the car up and
    /// end the stream.
    Finish { status: Option<Status>, reason: CleanupReason },
    /// Send the message; where that fails, clean up for the reason and end.
    Send { event: ParticipantServerEvent, on_failure: CleanupReason },
    /// Send the message as above, then read the car's dimensions.
    SendThenReadDimensions { event: ParticipantServerEvent, on_failure: CleanupReason },
    /// Hand the controls to the engine.
    SetControls { controls: Controls, pending: PendingControls },
    /// Have the engine put the car back on the track.
    BackToTrack { pending: PendingCommand },
    /// Have the engine put the car into the pit.
    ToPitstop { pending: PendingCommand },
}

/// The action ends the stream with the status.
pub open spec fn finishes_with(
    a: StreamAction,
    code: Code,
    message: Seq<char>,
    reason: CleanupReason,
) -> bool {
    a matches StreamAction::Finish { status: Some(status), reason: r } && status@ == (code, message)
        && r == reason
}

/// The action sends the answer to a command as message number `seq`.
pub open spec fn answers_command(a: StreamAction, seq: u64, ack: ParticipantCommandAck) -> bool {
    a matches StreamAction::Send { event, on_failure } && event.server_seq == seq && event.payload
        == ParticipantServerPayload::CommandAck(ack) && on_failure
        == CleanupReason::CommandAckSendFailed
}

/// The action sends the answer to controls as message number `seq`.
pub open spec fn answers_controls(a: StreamAction, seq: u64, ack: ParticipantControlsAck) -> bool {
    a matches StreamAction::Send { event, on_failure } && event.server_seq == seq && event.payload
        == ParticipantServerPayload::Ack(ack) && on_failure == CleanupReason::AckSendFailed
}

/// A command that is carried out.
pub open spec fn accepted_ack(
    client_seq: u64,
    command_type: ParticipantCommandType,
    tick: u64,
) -> ParticipantCommandAck {
    ParticipantCommandAck {
        client_seq,
        command_type,
        status: ParticipantCommandStatus::Accepted,
        applies_from_tick: tick,
        rejected_reason: ParticipantCommandRejectReason::Unspecified,
        cooldown_remaining_ms: 0,
    }
}

/// A command that is refused.
pub open spec fn rejected_ack(
    client_seq: u64,
    command_type: ParticipantCommandType,
    tick: u64,
    reason: ParticipantCommandRejectReason,
    cooldown_ms: u32,
) -> ParticipantCommandAck {
    ParticipantCommandAck {
        client_seq,
        command_type,
        status: ParticipantCommandStatus::Rejected,
        applies_from_tick: tick,
        rejected_reason: reason,
        cooldown_remaining_ms: cooldown_ms,
    }
}

/// The number of the message after number `seq`.
pub open spec fn seq_after(seq: u64) -> u64 {
    if seq == u64::MAX {
        u64::MAX
    } else {
        (seq + 1) as u64
    }
}

/// Brake fully, do nothing else.
pub open spec fn locked_controls() -> Controls {
    Controls {
        throttle: F32Bits { bits: ZERO_BITS },
        brake: F32Bits { bits: ONE_BITS },
        brake_balancer: F32Bits { bits: HALF_BITS },
        differential_lock: F32Bits { bits: ZERO_BITS },
        steering: F32Bits { bits: ZERO_BITS },
        gear_shift: EngineGearShift::Hold,
    }
}

/// The inputs of controls, as they are remembered.
pub open spec fn remembered_input(c: Controls) -> RuntimeControlInputSnapshot {
    RuntimeControlInputSnapshot {
        input_throttle: c.throttle,
        input_brake: c.brake,
        current_brake_balancer: c.brake_balancer,
        current_differential_lock: c.differential_lock,
    }
}

/// The store after controls with the number were taken from the car's driver.
pub open spec fn with_input(
    s: StoreView,
    car_id: u64,
    client_seq: u64,
    controls: Controls,
) -> StoreView {
    s.with_record(
        car_id,
        CarRecordView {
            last_client_seq: Some(client_seq),
            controls_input: Some(remembered_input(controls)),
            ..s.record(car_id)
        },
    )
}

/// The store after the car was put back on the track.
pub open spec fn with_back_to_track(s: StoreView, car_id: u64, now_ms: u64) -> StoreView {
    s.with_pit(
        car_id,
        PitView {
            force_idle_until_ms: later(
                s.pit(car_id).force_idle_until_ms,
                (now_ms + TELEPORT_IDLE_WINDOW_MS) as u64,
            ),
            ..s.pit(car_id)
        },
    )
}

/// The store after the car was sent to the pit in an emergency.
pub open spec fn with_emergency_pitstop(s: StoreView, car_id: u64, now_ms: u64) -> StoreView {
    s.with_pit(
        car_id,
        PitView {
            emergency_intent_pending: true,
            emergency_lock_until_ms: later(
                s.pit(car_id).emergency_lock_until_ms,
                capped_sum(now_ms, EMERGENCY_PIT_LOCK_MS),
            ),
            force_idle_until_ms: later(
                s.pit(car_id).force_idle_until_ms,
                (now_ms + TELEPORT_IDLE_WINDOW_MS) as u64,
            ),
            ..s.pit(car_id)
        },
    )
}

/// A driver's stream.
#[derive(Debug)]
pub struct ParticipantStream {
    pub mode: BackendMode,
    pub car_id: u64,
    pub engine_car_id: u64,
    pub target: EngineCommandTarget,
    pub rate: StreamRate,
    pub resolved_view: SpectatorView,
    pub view_downgrade_reason: ViewDowngradeReason,
    pub map_id: String,
    pub initialized: bool,
    pub server_seq: u64,
}

/// The two streams differ at most in the message number and in being initialized.
pub open spec fn same_stream(a: ParticipantStream, b: ParticipantStream) -> bool {
    &&& a.mode == b.mode
    &&& a.car_id == b.car_id
    &&& a.engine_car_id == b.engine_car_id
    &&& a.target == b.target
    &&& a.rate == b.rate
    &&& a.resolved_view == b.resolved_view
    &&& a.view_downgrade_reason == b.view_downgrade_reason
    &&& a.map_id == b.map_id
}

/// The car is another one of the driver's session.
pub open spec fn is_opponent(car: RuntimeCarFrame<VehicleState>, car_id: u64, target: TargetView) ->
    bool {
    car.public_car_id != car_id && car.target@ == target
}

/// The driver is shown the car as the frame has it.
pub open spec fn shows_opponent(
    shown: ParticipantOpponentState,
    car: RuntimeCarFrame<VehicleState>,
) -> bool {
    &&& shown.car_id == car.public_car_id
    &&& shown.kinematics == kinematics_of(car.state.telemetry)
    &&& shows_ghost_mode(shown.ghost_mode, car.state.telemetry.ghost_mode_runtime)
}

/// What is shown are the cars at the places, and these are the places of all opponents
/// in the frame, in ascending order.
pub open spec fn are_opponents_at(
    shown: Seq<ParticipantOpponentState>,
    places: Seq<int>,
    cars: Seq<RuntimeCarFrame<VehicleState>>,
    car_id: u64,
    target: TargetView,
) -> bool {
    &&& shown.len() == places.len()
    &&& forall|a: int, b: int|
        #![trigger places[a], places[b]]
        0 <= a < b < places.len() ==> places[a] < places[b]
    &&& forall|k: int|
        0 <= k < places.len() ==> {
            &&& 0 <= #[trigger] places[k] < cars.len()
            &&& is_opponent(cars[places[k]], car_id, target)
            &&& shows_opponent(shown[k], cars[places[k]])
        }
    &&& forall|i: int|
        0 <= i < cars.len() && is_opponent(#[trigger] cars[i], car_id, target) ==> places.contains(
            i,
        )
}

/// What is shown are the opponents in the frame.
pub open spec fn are_opponents(
    shown: Seq<ParticipantOpponentState>,
    cars: Seq<RuntimeCarFrame<VehicleState>>,
    car_id: u64,
    target: TargetView,
) -> bool {
    exists|places: Seq<int>| #[trigger] are_opponents_at(shown, places, cars, car_id, target)
}

/// The place of the car in a frame, where it is in it.
pub open spec fn is_place_of<T>(cars: Seq<RuntimeCarFrame<T>>, car_id: u64, i: int) -> bool {
    0 <= i < cars.len() && cars[i].public_car_id == car_id
}

/// The message that the action sends, where it sends one.
pub open spec fn sent_event(a: StreamAction) -> Option<ParticipantServerEvent> {
    match a {
        StreamAction::Send { event, .. } => Some(event),
        StreamAction::SendThenReadDimensions { event, .. } => Some(event),
        _ => None,
    }
}

/// The action hands something to the engine and waits for its answer.
pub open spec fn awaits_engine(a: StreamAction) -> bool {
    a is SetControls || a is BackToTrack || a is ToPitstop
}

/// A message takes the next number, and only a message does.
pub open spec fn numbers_step(
    before: ParticipantStream,
    a: StreamAction,
    after: ParticipantStream,
) -> bool {
    match sent_event(a) {
        Some(event) => event.server_seq == before.server_seq && after.server_seq == seq_after(
            before.server_seq,
        ),
        None => after.server_seq == before.server_seq,
    }
}

/// A step of the stream as all of them are: the init is answered by the settings, and
/// before it nothing is sent and the engine is not asked.
pub open spec fn is_step(
    before: ParticipantStream,
    a: StreamAction,
    after: ParticipantStream,
) -> bool {
    &&& numbers_step(before, a, after)
    &&& a is SendThenReadDimensions ==> !before.initialized && sent_event(
        a,
    )->Some_0.payload is Settings
    &&& after.initialized == (before.initialized || a is SendThenReadDimensions)
    &&& a is Send || awaits_engine(a) ==> before.initialized
}

/// The step that follows the settings: the bootstrap is sent.
pub open spec fn is_bootstrap_step(
    before: ParticipantStream,
    a: StreamAction,
    after: ParticipantStream,
) -> bool {
    &&& numbers_step(before, a, after)
    &&& a is Send && sent_event(a)->Some_0.payload is Bootstrap
    &&& after.initialized == before.initialized
}

/// One step of a stream: what was to be done and the stream after it.
pub struct StreamStep {
    pub action: StreamAction,
    pub after: ParticipantStream,
}

/// The stream before the `k`th of the steps.
pub open spec fn stream_at(first: ParticipantStream, steps: Seq<StreamStep>, k: int) ->
    ParticipantStream {
    if k <= 0 {
        first
    } else {
        steps[k - 1].after
    }
}

/// The step is one that the action before it asks for: the dimensions are handed in when
/// they were to be read, the engine's answer when it was asked, and nothing comes after
/// the end.
pub open spec fn follows(
    earlier: Option<StreamAction>,
    before: ParticipantStream,
    step: StreamStep,
) -> bool {
    match earlier {
        Some(StreamAction::Finish { .. }) => false,
        Some(StreamAction::SendThenReadDimensions { .. }) => is_bootstrap_step(
            before,
            step.action,
            step.after,
        ),
        Some(a) => if awaits_engine(a) {
            before.initialized ==> is_step(before, step.action, step.after)
        } else {
            is_step(before, step.action, step.after)
        },
        None => is_step(before, step.action, step.after),
    }
}

pub open spec fn action_before(steps: Seq<StreamStep>, k: int) -> Option<StreamAction> {
    if k <= 0 {
        None
    } else {
        Some(steps[k - 1].action)
    }
}

pub open spec fn follows_at(first: ParticipantStream, steps: Seq<StreamStep>, k: int) -> bool {
    follows(action_before(steps, k), stream_at(first, steps, k), steps[k])
}

/// The steps of a stream from its beginning.
pub open spec fn is_run(first: ParticipantStream, steps: Seq<StreamStep>) -> bool {
    &&& !first.initialized && first.server_seq == 1
    &&& forall|k: int| 0 <= k < steps.len() ==> #[trigger] follows_at(first, steps, k)
}

/// The messages that the steps send, in order.
pub open spec fn sent_events(steps: Seq<StreamStep>) -> Seq<ParticipantServerEvent>
    decreases steps.len(),
{
    if steps.len() == 0 {
        Seq::empty()
    } else {
        match sent_event(steps.last().action) {
            Some(event) => sent_events(steps.drop_last()).push(event),
            None => sent_events(steps.drop_last()),
        }
    }
}

/// What holds after the steps that have sent `events`.
spec fn is_numbered(
    earlier: Option<StreamAction>,
    now: ParticipantStream,
    events: Seq<ParticipantServerEvent>,
) -> bool {
    &&& now.server_seq == events.len() + 1
    &&& now.initialized == (events.len() > 0)
    &&& forall|i: int| 0 <= i < events.len() ==> (#[trigger] events[i]).server_seq == i + 1
    &&& events.len() > 0 ==> events[0].payload is Settings
    &&& events.len() > 1 ==> events[1].payload is Bootstrap
    &&& events.len() == 1 ==> earlier is Some && earlier->Some_0 is SendThenReadDimensions
    &&& earlier is Some && awaits_engine(earlier->Some_0) ==> now.initialized
}

proof fn lemma_numbered_step(
    earlier: Option<StreamAction>,
    before: ParticipantStream,
    events: Seq<ParticipantServerEvent>,
    step: StreamStep,
)
    requires
        is_numbered(earlier, before, events),
        follows(earlier, before, step),
        events.len() + 1 < u64::MAX,
        earlier is Some && earlier->Some_0 is SendThenReadDimensions ==> events.len() == 1,
    ensures
        is_numbered(
            Some(step.action),
            step.after,
            match sent_event(step.action) {
                Some(event) => events.push(event),
                None => events,
            },
        ),
        step.action is SendThenReadDimensions ==> events.len() == 0,
{
}

proof fn lemma_run_is_numbered(first: ParticipantStream, steps: Seq<StreamStep>)
    requires
        is_run(first, steps),
        steps.len() < u64::MAX,
    ensures
        is_numbered(
            action_before(steps, steps.len() as int),
            stream_at(first, steps, steps.len() as int),
            sent_events(steps),
        ),
        sent_events(steps).len() <= steps.len(),
        steps.len() > 0 && steps.last().action is SendThenReadDimensions ==> sent_events(
            steps,
        ).len() == 1,
    decreases steps.len(),
{
    if steps.len() > 0 {
        let n = steps.len() - 1;
        let prior = steps.drop_last();
        assert forall|k: int| 0 <= k < prior.len() implies #[trigger] follows_at(
            first,
            prior,
            k,
        ) by {
            assert(follows_at(first, steps, k));
            assert(prior[k] == steps[k]);
            assert(action_before(prior, k) == action_before(steps, k));
            assert(stream_at(first, prior, k) == stream_at(first, steps, k));
        }
        lemma_run_is_numbered(first, prior);
        assert(action_before(prior, n) == action_before(steps, n));
        assert(stream_at(first, prior, n) == stream_at(first, steps, n));
        assert(n > 0 ==> prior.last() == steps[n - 1]);
        assert(follows_at(first, steps, n));
        lemma_numbered_step(
            action_before(steps, n),
            stream_at(first, steps, n),
            sent_events(prior),
            steps[n],
        );
    }
}

/// Over a whole stream the messages are numbered 1, 2, 3 and so on without a gap; the
/// first one holds the settings and the second the bootstrap; and the stream ends at
/// most once, with its last step.
pub proof fn messages_are_numbered_in_order(first: ParticipantStream, steps: Seq<StreamStep>)
    requires
        is_run(first, steps),
        steps.len() < u64::MAX,
    ensures
        forall|i: int|
            0 <= i < sent_events(steps).len() ==> (#[trigger] sent_events(steps)[i]).server_seq == i
                + 1,
        sent_events(steps).len() > 0 ==> sent_events(steps)[0].payload is Settings,
        sent_events(steps).len() > 1 ==> sent_events(steps)[1].payload is Bootstrap,
        forall|k: int|
            0 <= k < steps.len() && (#[trigger] steps[k]).action is Finish ==> k == steps.len() - 1,
{
    lemma_run_is_numbered(first, steps);
    assert forall|k: int| 0 <= k < steps.len() && (#[trigger] steps[k]).action is Finish implies k
        == steps.len() - 1 by {
        if k < steps.len() - 1 {
            assert(follows_at(first, steps, k + 1));
        }
    }
}

impl ParticipantStream {
    /// A stream for a driver whose car is registered. A driver asks for the view of
    /// its team.
    pub fn new(
        mode: BackendMode,
        simulation_hz: u32,
        scopes: &Vec<String>,
        runtime_state: &Option<EngineRuntimeState>,
        car_id: u64,
        engine_car_id: u64,
        target: EngineCommandTarget,
    ) -> (r: Self)
        ensures
            r.mode == mode,
            r.car_id == car_id,
            r.engine_car_id == engine_car_id,
            r.target == target,
            is_rate(
                r.rate,
                PARTICIPANT_REQUESTED_HZ as int,
                smaller(
                    MAX_STREAM_HZ as int,
                    if simulation_hz == 0 {
                        1
                    } else {
                        simulation_hz as int
                    },
                ),
            ),
            view_rank(SpectatorView::Team) <= view_rank(allowed_view(scopes@)) ==> r.resolved_view
                == SpectatorView::Team && r.view_downgrade_reason
                == ViewDowngradeReason::NotDowngraded,
            view_rank(SpectatorView::Team) > view_rank(allowed_view(scopes@)) ==> r.resolved_view
                == allowed_view(scopes@) && r.view_downgrade_reason
                == ViewDowngradeReason::NotAuthorized,
            is_participant_map(*runtime_state, target, r.map_id@),
            !r.initialized,
            r.server_seq == 1,
    {
        let rate: StreamRate = resolve_participant_rate(simulation_hz);
        let (resolved_view, view_downgrade_reason) = resolve_view(SpectatorView::Team, scopes);
        let map_id: String = resolve_participant_map_id(runtime_state, &target);
        ParticipantStream {
            mode,
            car_id,
            engine_car_id,
            target,
            rate,
            resolved_view,
            view_downgrade_reason,
            map_id,
            initialized: false,
            server_seq: 1,
        }
    }

    /// The driver's race takes no commands now.
    pub open spec fn is_closed(self, facts: StreamFacts) -> bool {
        self.mode.local() && self.target is LocalRace && facts.local_race_closed
    }

    fn closed(&self, facts: &StreamFacts) -> (r: bool)
        ensures
            r == self.is_closed(*facts),
    {
        match &self.target {
            EngineCommandTarget::LocalRace { .. } => self.mode.is_local()
                && facts.local_race_closed,
            _ => false,
        }
    }

    /// The driver's controls are locked at the time of the facts.
    pub open spec fn is_locked(self, store: StoreView, facts: StreamFacts) -> bool {
        pit_snapshot(store.pit(self.car_id), facts.server_time_ms).emergency_lock_remaining_ms > 0
    }

    fn number(&mut self, payload: ParticipantServerPayload) -> (event: ParticipantServerEvent)
        ensures
            event.server_seq == old(self).server_seq,
            event.payload == payload,
            same_stream(*final(self), *old(self)),
            final(self).initialized == old(self).initialized,
            final(self).server_seq == seq_after(old(self).server_seq),
    {
        let event = ParticipantServerEvent { server_seq: self.server_seq, payload };
        self.server_seq = self.server_seq.saturating_add(1);
        event
    }

    fn answer_command(&mut self, ack: ParticipantCommandAck) -> (a: StreamAction)
        ensures
            answers_command(a, old(self).server_seq, ack),
            same_stream(*final(self), *old(self)),
            final(self).initialized == old(self).initialized,
            final(self).server_seq == seq_after(old(self).server_seq),
    {
        let event = self.number(ParticipantServerPayload::CommandAck(ack));
        StreamAction::Send { event, on_failure: CleanupReason::CommandAckSendFailed }
    }

    fn answer_controls(&mut self, ack: ParticipantControlsAck) -> (a: StreamAction)
        ensures
            answers_controls(a, old(self).server_seq, ack),
            same_stream(*final(self), *old(self)),
            final(self).initialized == old(self).initialized,
            final(self).server_seq == seq_after(old(self).server_seq),
    {
        let event = self.number(ParticipantServerPayload::Ack(ack));
        StreamAction::Send { event, on_failure: CleanupReason::AckSendFailed }
    }

    fn reject(
        &mut self,
        client_seq: u64,
        command_type: ParticipantCommandType,
        tick: u64,
        reason: ParticipantCommandRejectReason,
        cooldown_ms: u32,
    ) -> (a: StreamAction)
        ensures
            answers_command(
                a,
                old(self).server_seq,
                rejected_ack(client_seq, command_type, tick, reason, cooldown_ms),
            ),
            same_stream(*final(self), *old(self)),
            final(self).initialized == old(self).initialized,
            final(self).server_seq == seq_after(old(self).server_seq),
    {
        self.answer_command(
            ParticipantCommandAck {
                client_seq,
                command_type,
                status: ParticipantCommandStatus::Rejected,
                applies_from_tick: tick,
                rejected_reason: reason,
                cooldown_remaining_ms: cooldown_ms,
            },
        )
    }

    fn accept(&mut self, client_seq: u64, command_type: ParticipantCommandType, tick: u64) -> (a:
        StreamAction)
        ensures
            answers_command(a, old(self).server_seq, accepted_ack(client_seq, command_type, tick)),
            same_stream(*final(self), *old(self)),
            final(self).initialized == old(self).initialized,
            final(self).server_seq == seq_after(old(self).server_seq),
    {
        self.answer_command(
            ParticipantCommandAck {
                client_seq,
                command_type,
                status: ParticipantCommandStatus::Accepted,
                applies_from_tick: tick,
                rejected_reason: ParticipantCommandRejectReason::Unspecified,
                cooldown_remaining_ms: 0,
            },
        )
    }

    fn remember_input(&self, store: &mut RaceRuntimeStore, client_seq: u64, controls: Controls)
        ensures
            final(store)@ == with_input(old(store)@, self.car_id, client_seq, controls),
    {
        store.set_last_client_seq(self.car_id, client_seq);
        store.set_controls_input(
            self.car_id,
            controls.throttle,
            controls.brake,
            controls.brake_balancer,
            controls.differential_lock,
        );
        proof {
            assert(store@.cars =~= with_input(old(store)@, self.car_id, client_seq, controls).cars);
        }
    }

    /// The driver hung up.
    pub fn on_disconnect(&self) -> (a: StreamAction)
        ensures
            a matches StreamAction::Finish { status: None, reason } && reason
                == CleanupReason::Disconnect,
            is_step(*self, a, *self),
    {
        StreamAction::Finish { status: None, reason: CleanupReason::Disconnect }
    }

    /// The driver's side of the stream broke.
    pub fn on_client_error(&self, status: Status) -> (a: StreamAction)
        ensures
            a == (StreamAction::Finish {
                status: Some(status),
                reason: CleanupReason::ClientStreamError,
            }),
            is_step(*self, a, *self),
    {
        StreamAction::Finish { status: Some(status), reason: CleanupReason::ClientStreamError }
    }

    /// A message of the driver came in. The first one must be the init, and there
    /// is only one.
    pub fn on_message(
        &mut self,
        payload: Option<ParticipantClientPayload>,
        facts: &StreamFacts,
        store: &mut RaceRuntimeStore,
    ) -> (a: StreamAction)
        ensures
            same_stream(*final(self), *old(self)),
            final(self).initialized <==> old(self).initialized || payload
                == Some(ParticipantClientPayload::Init),
            match payload {
                None => {
                    &&& finishes_with(
                        a,
                        Code::InvalidArgument,
                        "participant message payload is required"@,
                        CleanupReason::EmptyPayload,
                    )
                    &&& final(store)@ == old(store)@
                },
                Some(ParticipantClientPayload::Init) => {
                    &&& final(store)@ == old(store)@
                    &&& old(self).initialized ==> finishes_with(
                        a,
                        Code::InvalidArgument,
                        "participant init may be sent only once"@,
                        CleanupReason::DuplicateInit,
                    )
                    &&& !old(self).initialized ==> {
                        &&& a matches StreamAction::SendThenReadDimensions { event, on_failure }
                        &&& event.server_seq == old(self).server_seq
                        &&& event.payload matches ParticipantServerPayload::Settings(settings)
                        &&& settings_match(
                            settings,
                            old(self).rate,
                            old(self).resolved_view,
                            old(self).view_downgrade_reason,
                            old(self).map_id@,
                        )
                        &&& on_failure == CleanupReason::InitialSendFailed
                    }
                },
                Some(ParticipantClientPayload::Controls { client_seq, controls }) => {
                    if !old(self).initialized {
                        &&& finishes_with(
                            a,
                            Code::InvalidArgument,
                            "first participant message must be init"@,
                            CleanupReason::ControlsBeforeInit,
                        )
                        &&& final(store)@ == old(store)@
                    } else if controls.gear_shift is None {
                        &&& finishes_with(
                            a,
                            Code::InvalidArgument,
                            "invalid gear_shift"@,
                            CleanupReason::InvalidControls,
                        )
                        &&& final(store)@ == old(store)@
                    } else if old(self).is_closed(*facts) {
                        &&& answers_controls(
                            a,
                            old(self).server_seq,
                            ParticipantControlsAck {
                                client_seq,
                                applies_from_tick: facts.tick,
                                accepted_shift: WireGearShift::Hold,
                            },
                        )
                        &&& final(store)@ == with_input(
                            old(store)@,
                            old(self).car_id,
                            client_seq,
                            locked_controls(),
                        )
                    } else {
                        let requested = engine_controls(controls, controls.gear_shift->Some_0);
                        &&& a == (StreamAction::SetControls {
                            controls: if old(self).is_locked(old(store)@, *facts) {
                                locked_controls()
                            } else {
                                requested
                            },
                            pending: PendingControls {
                                client_seq,
                                applies_from_tick: facts.tick,
                                requested,
                            },
                        })
                        &&& final(store)@ == old(store)@
                    }
                },
                Some(ParticipantClientPayload::BackToTrack { client_seq }) => {
                    let command = ParticipantCommandType::BackToTrack;
                    let seq = old(self).server_seq;
                    &&& final(store)@ == old(store)@
                    &&& if !old(self).initialized {
                        finishes_with(
                            a,
                            Code::InvalidArgument,
                            "first participant message must be init"@,
                            CleanupReason::CommandBeforeInit,
                        )
                    } else if old(self).is_closed(*facts) {
                        answers_command(
                            a,
                            seq,
                            rejected_ack(
                                client_seq,
                                command,
                                facts.tick,
                                ParticipantCommandRejectReason::NotAllowed,
                                0,
                            ),
                        )
                    } else if facts.back_to_track_cooldown_ms > 0 {
                        answers_command(
                            a,
                            seq,
                            rejected_ack(
                                client_seq,
                                command,
                                facts.tick,
                                ParticipantCommandRejectReason::CooldownActive,
                                facts.back_to_track_cooldown_ms,
                            ),
                        )
                    } else if facts.in_pit {
                        answers_command(
                            a,
                            seq,
                            rejected_ack(
                                client_seq,
                                command,
                                facts.tick,
                                ParticipantCommandRejectReason::InPit,
                                0,
                            ),
                        )
                    } else {
                        a == (StreamAction::BackToTrack {
                            pending: PendingCommand {
                                client_seq,
                                applies_from_tick: facts.tick,
                                server_time_ms: facts.server_time_ms,
                            },
                        })
                    }
                },
                Some(ParticipantClientPayload::EmergencyPitstop { client_seq }) => {
                    let command = ParticipantCommandType::EmergencyPitstop;
                    let seq = old(self).server_seq;
                    &&& final(store)@ == old(store)@
                    &&& if !old(self).initialized {
                        finishes_with(
                            a,
                            Code::InvalidArgument,
                            "first participant message must be init"@,
                            CleanupReason::CommandBeforeInit,
                        )
                    } else if old(self).is_closed(*facts) {
                        answers_command(
                            a,
                            seq,
                            rejected_ack(
                                client_seq,
                                command,
                                facts.tick,
                                ParticipantCommandRejectReason::NotAllowed,
                                0,
                            ),
                        )
                    } else if old(self).mode.official() && facts.in_pit {
                        answers_command(
                            a,
                            seq,
                            rejected_ack(
                                client_seq,
                                command,
                                facts.tick,
                                ParticipantCommandRejectReason::InPit,
                                0,
                            ),
                        )
                    } else if old(self).mode.official() && facts.emergency_pitstop_cooldown_ms
                        > 0 {
                        answers_command(
                            a,
                            seq,
                            rejected_ack(
                                client_seq,
                                command,
                                facts.tick,
                                ParticipantCommandRejectReason::CooldownActive,
                                facts.emergency_pitstop_cooldown_ms,
                            ),
                        )
                    } else {
                        a == (StreamAction::ToPitstop {
                            pending: PendingCommand {
                                client_seq,
                                applies_from_tick: facts.tick,
                                server_time_ms: facts.server_time_ms,
                            },
                        })
                    }
                },
                Some(
                    ParticipantClientPayload::SetNextPitTireType { client_seq, next_tire_type },
                ) => {
                    let command = ParticipantCommandType::SetNextPitTireType;
                    let seq = old(self).server_seq;
                    if !old(self).initialized {
                        &&& finishes_with(
                            a,
                            Code::InvalidArgument,
                            "first participant message must be init"@,
                            CleanupReason::CommandBeforeInit,
                        )
                        &&& final(store)@ == old(store)@
                    } else if !old(self).is_closed(*facts) && next_tire_type is Some {
                        &&& answers_command(
                            a,
                            seq,
                            accepted_ack(client_seq, command, facts.tick),
                        )
                        &&& final(store)@ == old(store)@.with_pit(
                            old(self).car_id,
                            PitView {
                                next_pit_tire_type: next_tire_type->Some_0,
                                ..old(store)@.pit(old(self).car_id)
                            },
                        )
                    } else {
                        &&& answers_command(
                            a,
                            seq,
                            rejected_ack(
                                client_seq,
                                command,
                                facts.tick,
                                ParticipantCommandRejectReason::NotAllowed,
                                0,
                            ),
                        )
                        &&& final(store)@ == old(store)@
                    }
                },
            },
            payload matches Some(ParticipantClientPayload::Controls { client_seq, controls: sent })
                ==> (a matches StreamAction::SetControls { controls, pending } ==> {
                let locked_until_ms = old(store)@.pit(old(self).car_id).emergency_lock_until_ms;
                &&& pending.client_seq == client_seq
                &&& pending.applies_from_tick == facts.tick
                &&& pending.requested.throttle == sent.throttle
                &&& pending.requested.brake == sent.brake
                &&& pending.requested.brake_balancer == sent.brake_balancer
                &&& pending.requested.differential_lock == sent.differential_lock
                &&& pending.requested.steering == sent.steering
                &&& locked_until_ms <= facts.server_time_ms ==> controls == pending.requested
                &&& locked_until_ms > facts.server_time_ms ==> controls.throttle.zero()
                    && controls.steering.zero() && controls.brake.bits == 0x3f80_0000
                    && controls.gear_shift is Hold
            }),
            final(self).server_seq == if a is Send || a is SendThenReadDimensions {
                seq_after(old(self).server_seq)
            } else {
                old(self).server_seq
            },
            is_step(*old(self), a, *final(self)),
    {
        let payload: ParticipantClientPayload = match payload {
            Some(payload) => payload,
            None => {
                return StreamAction::Finish {
                    status: Some(
                        Status::invalid_argument("participant message payload is required"),
                    ),
                    reason: CleanupReason::EmptyPayload,
                };
            },
        };
        match payload {
            ParticipantClientPayload::Init => {
                if self.initialized {
                    return StreamAction::Finish {
                        status: Some(
                            Status::invalid_argument("participant init may be sent only once"),
                        ),
                        reason: CleanupReason::DuplicateInit,
                    };
                }
                self.initialized = true;
                let settings: StreamSettings = build_stream_settings(
                    self.rate,
                    self.resolved_view,
                    self.view_downgrade_reason,
                    self.map_id.as_str(),
                );
                let event = self.number(ParticipantServerPayload::Settings(settings));
                StreamAction::SendThenReadDimensions {
                    event,
                    on_failure: CleanupReason::InitialSendFailed,
                }
            },
            ParticipantClientPayload::Controls { client_seq, controls } => {
                if !self.initialized {
                    return Self::before_init(CleanupReason::ControlsBeforeInit);
                }
                let requested: Controls = match controls_from_proto(controls) {
                    Ok(requested) => requested,
                    Err(status) => {
                        return StreamAction::Finish {
                            status: Some(status),
                            reason: CleanupReason::InvalidControls,
                        };
                    },
                };
                if self.closed(facts) {
                    let braked: Controls = Self::braking();
                    self.remember_input(store, client_seq, braked);
                    return self.answer_controls(
                        ParticipantControlsAck {
                            client_seq,
                            applies_from_tick: facts.tick,
                            accepted_shift: engine_gear_shift_to_proto(EngineGearShift::Hold),
                        },
                    );
                }
                let pit_state = store.pit_state_snapshot(self.car_id, facts.server_time_ms);
                let applied: Controls = if pit_state.emergency_lock_remaining_ms > 0 {
                    Self::braking()
                } else {
                    requested
                };
                StreamAction::SetControls {
                    controls: applied,
                    pending: PendingControls {
                        client_seq,
                        applies_from_tick: facts.tick,
                        requested,
                    },
                }
            },
            ParticipantClientPayload::BackToTrack { client_seq } => {
                let command = ParticipantCommandType::BackToTrack;
                if !self.initialized {
                    return Self::before_init(CleanupReason::CommandBeforeInit);
                }
                if self.closed(facts) {
                    return self.reject(
                        client_seq,
                        command,
                        facts.tick,
                        ParticipantCommandRejectReason::NotAllowed,
                        0,
                    );
                }
                if facts.back_to_track_cooldown_ms > 0 {
                    return self.reject(
                        client_seq,
                        command,
                        facts.tick,
                        ParticipantCommandRejectReason::CooldownActive,
                        facts.back_to_track_cooldown_ms,
                    );
                }
                if facts.in_pit {
                    return self.reject(
                        client_seq,
                        command,
                        facts.tick,
                        ParticipantCommandRejectReason::InPit,
                        0,
                    );
                }
                StreamAction::BackToTrack {
                    pending: PendingCommand {
                        client_seq,
                        applies_from_tick: facts.tick,
                        server_time_ms: facts.server_time_ms,
                    },
                }
            },
            ParticipantClientPayload::EmergencyPitstop { client_seq } => {
                let command = ParticipantCommandType::EmergencyPitstop;
                if !self.initialized {
                    return Self::before_init(CleanupReason::CommandBeforeInit);
                }
                if self.closed(facts) {
                    return self.reject(
                        client_seq,
                        command,
                        facts.tick,
                        ParticipantCommandRejectReason::NotAllowed,
                        0,
                    );
                }
                if self.mode.is_official() {
                    if facts.in_pit {
                        return self.reject(
                            client_seq,
                            command,
                            facts.tick,
                            ParticipantCommandRejectReason::InPit,
                            0,
                        );
                    }
                    if facts.emergency_pitstop_cooldown_ms > 0 {
                        return self.reject(
                            client_seq,
                            command,
                            facts.tick,
                            ParticipantCommandRejectReason::CooldownActive,
                            facts.emergency_pitstop_cooldown_ms,
                        );
                    }
                }
                StreamAction::ToPitstop {
                    pending: PendingCommand {
                        client_seq,
                        applies_from_tick: facts.tick,
                        server_time_ms: facts.server_time_ms,
                    },
                }
            },
            ParticipantClientPayload::SetNextPitTireType { client_seq, next_tire_type } => {
                let command = ParticipantCommandType::SetNextPitTireType;
                if !self.initialized {
                    return Self::before_init(CleanupReason::CommandBeforeInit);
                }
                if self.closed(facts) {
                    return self.reject(
                        client_seq,
                        command,
                        facts.tick,
                        ParticipantCommandRejectReason::NotAllowed,
                        0,
                    );
                }
                match next_tire_type {
                    Some(tire_type) => {
                        store.set_next_pit_tire_type(self.car_id, tire_type);
                        self.accept(client_seq, command, facts.tick)
                    },
                    None => self.reject(
                        client_seq,
                        command,
                        facts.tick,
                        ParticipantCommandRejectReason::NotAllowed,
                        0,
                    ),
                }
            },
        }
    }

    fn before_init(reason: CleanupReason) -> (a: StreamAction)
        ensures
            finishes_with(
                a,
                Code::InvalidArgument,
                "first participant message must be init"@,
                reason,
            ),
    {
        StreamAction::Finish {
            status: Some(Status::invalid_argument("first participant message must be init")),
            reason,
        }
    }

    fn braking() -> (c: Controls)
        ensures
            c == locked_controls(),
    {
        Controls {
            throttle: F32Bits { bits: ZERO_BITS },
            brake: F32Bits { bits: ONE_BITS },
            brake_balancer: F32Bits { bits: HALF_BITS },
            differential_lock: F32Bits { bits: ZERO_BITS },
            steering: F32Bits { bits: ZERO_BITS },
            gear_shift: EngineGearShift::Hold,
        }
    }

    /// The settings were sent and the car's dimensions were read, where that went well.
    pub fn on_dimensions(&mut self, car_dimensions: Option<CarDimensions>) -> (a: StreamAction)
        ensures
            same_stream(*final(self), *old(self)),
            final(self).initialized == old(self).initialized,
            final(self).server_seq == seq_after(old(self).server_seq),
            a == (StreamAction::Send {
                event: ParticipantServerEvent {
                    server_seq: old(self).server_seq,
                    payload: ParticipantServerPayload::Bootstrap(car_dimensions),
                },
                on_failure: CleanupReason::BootstrapSendFailed,
            }),
            is_bootstrap_step(*old(self), a, *final(self)),
    {
        let event = self.number(ParticipantServerPayload::Bootstrap(car_dimensions));
        StreamAction::Send { event, on_failure: CleanupReason::BootstrapSendFailed }
    }

    /// The engine took the controls, with the shift that it accepted, or refused them.
    pub fn on_controls_result(
        &mut self,
        pending: PendingControls,
        result: Result<EngineGearShift, EngineWorkerError>,
        store: &mut RaceRuntimeStore,
    ) -> (a: StreamAction)
        ensures
            same_stream(*final(self), *old(self)),
            final(self).initialized == old(self).initialized,
            match result {
                Err(err) => {
                    &&& finishes_with(
                        a,
                        worker_status(err).0,
                        worker_status(err).1,
                        CleanupReason::SetControlsFailed,
                    )
                    &&& final(store)@ == old(store)@
                    &&& final(self).server_seq == old(self).server_seq
                },
                Ok(shift) => {
                    &&& answers_controls(
                        a,
                        old(self).server_seq,
                        ParticipantControlsAck {
                            client_seq: pending.client_seq,
                            applies_from_tick: pending.applies_from_tick,
                            accepted_shift: wire_shift(shift),
                        },
                    )
                    &&& final(store)@ == with_input(
                        old(store)@,
                        old(self).car_id,
                        pending.client_seq,
                        pending.requested,
                    )
                    &&& final(self).server_seq == seq_after(old(self).server_seq)
                },
            },
            old(self).initialized ==> is_step(*old(self), a, *final(self)),
    {
        match result {
            Err(err) => StreamAction::Finish {
                status: Some(crate::engine::map_worker_err(err)),
                reason: CleanupReason::SetControlsFailed,
            },
            Ok(shift) => {
                self.remember_input(store, pending.client_seq, pending.requested);
                self.answer_controls(
                    ParticipantControlsAck {
                        client_seq: pending.client_seq,
                        applies_from_tick: pending.applies_from_tick,
                        accepted_shift: engine_gear_shift_to_proto(shift),
                    },
                )
            },
        }
    }

    /// The engine put the car back on the track, or refused to.
    pub fn on_back_to_track_result(
        &mut self,
        pending: PendingCommand,
        done: bool,
        store: &mut RaceRuntimeStore,
    ) -> (a: StreamAction)
        requires
            pending.server_time_ms + TELEPORT_IDLE_WINDOW_MS <= u64::MAX,
        ensures
            same_stream(*final(self), *old(self)),
            final(self).initialized == old(self).initialized,
            final(self).server_seq == seq_after(old(self).server_seq),
            answers_command(
                a,
                old(self).server_seq,
                if done {
                    accepted_ack(
                        pending.client_seq,
                        ParticipantCommandType::BackToTrack,
                        pending.applies_from_tick,
                    )
                } else {
                    rejected_ack(
                        pending.client_seq,
                        ParticipantCommandType::BackToTrack,
                        pending.applies_from_tick,
                        ParticipantCommandRejectReason::NotAllowed,
                        0,
                    )
                },
            ),
            final(store)@ == if done {
                with_back_to_track(old(store)@, old(self).car_id, pending.server_time_ms)
            } else {
                old(store)@
            },
            old(self).initialized ==> is_step(*old(self), a, *final(self)),
    {
        if done {
            store.mark_back_to_track_applied(self.car_id, pending.server_time_ms);
            self.accept(
                pending.client_seq,
                ParticipantCommandType::BackToTrack,
                pending.applies_from_tick,
            )
        } else {
            self.reject(
                pending.client_seq,
                ParticipantCommandType::BackToTrack,
                pending.applies_from_tick,
                ParticipantCommandRejectReason::NotAllowed,
                0,
            )
        }
    }

    /// The engine put the car into the pit, or refused to. Only the official
    /// backend locks the controls then.
    pub fn on_pitstop_result(
        &mut self,
        pending: PendingCommand,
        done: bool,
        store: &mut RaceRuntimeStore,
    ) -> (a: StreamAction)
        requires
            pending.server_time_ms + TELEPORT_IDLE_WINDOW_MS <= u64::MAX,
        ensures
            same_stream(*final(self), *old(self)),
            final(self).initialized == old(self).initialized,
            final(self).server_seq == seq_after(old(self).server_seq),
            answers_command(
                a,
                old(self).server_seq,
                if done {
                    accepted_ack(
                        pending.client_seq,
                        ParticipantCommandType::EmergencyPitstop,
                        pending.applies_from_tick,
                    )
                } else {
                    rejected_ack(
                        pending.client_seq,
                        ParticipantCommandType::EmergencyPitstop,
                        pending.applies_from_tick,
                        ParticipantCommandRejectReason::NotAllowed,
                        0,
                    )
                },
            ),
            final(store)@ == if done && old(self).mode.official() {
                with_emergency_pitstop(old(store)@, old(self).car_id, pending.server_time_ms)
            } else {
                old(store)@
            },
            old(self).initialized ==> is_step(*old(self), a, *final(self)),
    {
        if done {
            if self.mode.is_official() {
                store.mark_emergency_pitstop_requested(self.car_id, pending.server_time_ms);
            }
            self.accept(
                pending.client_seq,
                ParticipantCommandType::EmergencyPitstop,
                pending.applies_from_tick,
            )
        } else {
            self.reject(
                pending.client_seq,
                ParticipantCommandType::EmergencyPitstop,
                pending.applies_from_tick,
                ParticipantCommandRejectReason::NotAllowed,
                0,
            )
        }
    }

    /// It is time for the next snapshot: the driver is shown the cars of the frame, and
    /// the own pit state and cooldowns. The stream ends when the car is gone or is not
    /// the same car any more.
    pub fn on_tick(
        &mut self,
        frame: &RuntimeFrame<VehicleState>,
        pit_state: &RuntimePitStateSnapshot,
        cooldowns: CommandCooldownState,
    ) -> (a: StreamAction)
        requires
            cars_ascend(frame.cars@),
        ensures
            same_stream(*final(self), *old(self)),
            final(self).initialized == old(self).initialized,
            final(self).server_seq == if a is Send {
                seq_after(old(self).server_seq)
            } else {
                old(self).server_seq
            },
            is_step(*old(self), a, *final(self)),
            !old(self).initialized ==> a is Wait,
            old(self).initialized && !(exists|i: int|
                is_place_of(frame.cars@, old(self).car_id, i)) ==> finishes_with(
                a,
                Code::NotFound,
                "participant car is no longer active"@,
                CleanupReason::SelfMissing,
            ),
            forall|i: int| #[trigger]
                is_place_of(frame.cars@, old(self).car_id, i) && old(self).initialized ==> {
                    let car = frame.cars@[i];
                    if car.target@ != old(self).target@ {
                        finishes_with(
                            a,
                            Code::FailedPrecondition,
                            "participant car target changed"@,
                            CleanupReason::SelfTargetChanged,
                        )
                    } else if car.engine_car_id != old(self).engine_car_id {
                        finishes_with(
                            a,
                            Code::FailedPrecondition,
                            "participant car engine mapping changed"@,
                            CleanupReason::SelfEngineIdChanged,
                        )
                    } else {
                        &&& a matches StreamAction::Send { event, on_failure }
                        &&& on_failure == CleanupReason::SnapshotSendFailed
                        &&& event.server_seq == old(self).server_seq
                        &&& event.payload matches ParticipantServerPayload::Snapshot(snapshot)
                        &&& snapshot.tick == frame.tick
                        &&& snapshot.server_time_ms == frame.server_time_ms
                        &&& snapshot.me.car_id == old(self).car_id
                        &&& snapshot.me.kinematics == kinematics_of(car.state.telemetry)
                        &&& shows_car(
                            snapshot.me.telemetry,
                            car.state.telemetry,
                            car.last_client_seq,
                            *pit_state,
                            cooldowns,
                        )
                        &&& are_opponents(
                            snapshot.opponents@,
                            frame.cars@,
                            old(self).car_id,
                            old(self).target@,
                        )
                    }
                },
    {
        if !self.initialized {
            return StreamAction::Wait;
        }
        let mut place: Option<usize> = None;
        let mut opponents: Vec<ParticipantOpponentState> = Vec::new();
        let ghost mut places: Seq<int> = Seq::empty();
        let ghost target = self.target@;
        let mut i: usize = 0;
        while i < frame.cars.len()
            invariant
                i <= frame.cars@.len(),
                target == self.target@,
                same_stream(*self, *old(self)),
                self.initialized,
                self.server_seq == old(self).server_seq,
                match place {
                    Some(p) => p < i && frame.cars@[p as int].public_car_id == self.car_id,
                    None => forall|j: int|
                        0 <= j < i ==> (#[trigger] frame.cars@[j]).public_car_id != self.car_id,
                },
                are_opponents_at(
                    opponents@,
                    places,
                    frame.cars@.take(i as int),
                    self.car_id,
                    target,
                ),
            decreases frame.cars@.len() - i,
        {
            let ghost before = frame.cars@.take(i as int);
            let ghost after = frame.cars@.take(i + 1);
            let ghost known = places;
            let car_id: u64 = frame.cars[i].public_car_id;
            let is_same: bool = frame.cars[i].target.is_same(&self.target);
            if car_id == self.car_id {
                place = Some(i);
            } else if is_same {
                opponents.push(participant_opponent_state(car_id, &frame.cars[i].state.telemetry));
                proof {
                    places = places.push(i as int);
                }
            }
            proof {
                assert(forall|k: int| 0 <= k < i ==> #[trigger] after[k] == before[k]);
                assert(after[i as int] == frame.cars@[i as int]);
                assert forall|k: int| 0 <= k < i + 1 && is_opponent(
                    #[trigger] after[k],
                    self.car_id,
                    target,
                ) implies places.contains(k) by {
                    if k < i {
                        assert(is_opponent(before[k], self.car_id, target));
                        let m = choose|m: int| 0 <= m < known.len() && known[m] == k;
                        assert(places[m] == k);
                    } else {
                        assert(places[known.len() as int] == k);
                    }
                }
            }
            i += 1;
        }
        proof {
            assert(frame.cars@.take(i as int) =~= frame.cars@);
            assert(are_opponents(opponents@, frame.cars@, self.car_id, target));
        }
        match place {
            None => StreamAction::Finish {
                status: Some(Status::not_found("participant car is no longer active")),
                reason: CleanupReason::SelfMissing,
            },
            Some(p) => {
                proof {
                    assert(is_place_of(frame.cars@, self.car_id, p as int));
                    assert forall|q: int| is_place_of(frame.cars@, self.car_id, q) implies q
                        == p by {
                        if q < p {
                            assert(frame.cars@[q].public_car_id < frame.cars@[p as int].public_car_id);
                        } else if p < q {
                            assert(frame.cars@[p as int].public_car_id < frame.cars@[q].public_car_id);
                        }
                    }
                }
                if !frame.cars[p].target.is_same(&self.target) {
                    return StreamAction::Finish {
                        status: Some(Status::failed_precondition("participant car target changed")),
                        reason: CleanupReason::SelfTargetChanged,
                    };
                }
                if frame.cars[p].engine_car_id != self.engine_car_id {
                    return StreamAction::Finish {
                        status: Some(
                            Status::failed_precondition("participant car engine mapping changed"),
                        ),
                        reason: CleanupReason::SelfEngineIdChanged,
                    };
                }
                let snapshot = ParticipantSnapshot {
                    tick: frame.tick,
                    server_time_ms: frame.server_time_ms,
                    me: participant_self_state(
                        self.car_id,
                        &frame.cars[p].state.telemetry,
                        frame.cars[p].last_client_seq,
                        pit_state,
                        cooldowns,
                    ),
                    opponents,
                };
                let event = self.number(ParticipantServerPayload::Snapshot(snapshot));
                StreamAction::Send { event, on_failure: CleanupReason::SnapshotSendFailed }
            },
        }
    }
}

/// A driver whose controls are locked by an emergency stop is still locked when the
/// next message comes in within the lock, and not after it.
pub proof fn emergency_stop_locks_controls(
    s: StoreView,
    stream: ParticipantStream,
    now_ms: u64,
    facts: StreamFacts,
)
    requires
        now_ms + EMERGENCY_PIT_LOCK_MS <= u64::MAX,
        s.pit(stream.car_id).emergency_lock_until_ms <= now_ms,
    ensures
        facts.server_time_ms < now_ms + EMERGENCY_PIT_LOCK_MS <==> stream.is_locked(
            with_emergency_pitstop(s, stream.car_id, now_ms),
            facts,
        ),
{
}

/// Messages to a driver carry strictly growing numbers until the largest one.
pub proof fn message_numbers_grow(seq: u64)
    ensures
        seq < u64::MAX ==> seq_after(seq) > seq,
        seq == u64::MAX ==> seq_after(seq) == seq,
{
}

/// A driver whose controls are locked brakes fully and does nothing else.
pub proof fn locked_car_brakes()
    ensures
        locked_controls().brake.bits == 0x3f80_0000,
        locked_controls().throttle.zero(),
        locked_controls().steering.zero(),
        locked_controls().differential_lock.zero(),
        locked_controls().brake_balancer.bits == 0x3f00_0000,
        locked_controls().gear_shift is Hold,
{
}

/// Of controls that were taken the inputs are remembered, each as itself, with the number of
/// their message; all else of the car, and every other car, stays.
pub proof fn taken_inputs_are_remembered(
    s: StoreView,
    car_id: u64,
    client_seq: u64,
    c: Controls,
    other: u64,
)
    ensures
        ({
            let after = with_input(s, car_id, client_seq, c);
            &&& after.record(car_id).last_client_seq == Some(client_seq)
            &&& after.record(car_id).controls_input matches Some(input)
            &&& input.input_throttle == c.throttle
            &&& input.input_brake == c.brake
            &&& input.current_brake_balancer == c.brake_balancer
            &&& input.current_differential_lock == c.differential_lock
            &&& after.record(car_id).known == s.record(car_id).known
            &&& after.record(car_id).owner == s.record(car_id).owner
            &&& after.record(car_id).engine_car_id == s.record(car_id).engine_car_id
            &&& after.record(car_id).target == s.record(car_id).target
            &&& after.record(car_id).identity == s.record(car_id).identity
            &&& after.record(car_id).pit_state == s.record(car_id).pit_state
            &&& other != car_id ==> after.record(other) == s.record(other)
            &&& after.instance_cars == s.instance_cars
        }),
{
}

/// An answer names the driver's message and command and the tick from which it holds. A
/// command that is carried out has no reason against it and no waiting time; one that is
/// refused has the reason and the waiting time that it was refused with.
pub proof fn answers_name_the_command(
    client_seq: u64,
    command: ParticipantCommandType,
    tick: u64,
    reason: ParticipantCommandRejectReason,
    cooldown_ms: u32,
)
    ensures
        accepted_ack(client_seq, command, tick).status is Accepted,
        accepted_ack(client_seq, command, tick).client_seq == client_seq,
        accepted_ack(client_seq, command, tick).command_type == command,
        accepted_ack(client_seq, command, tick).applies_from_tick == tick,
        accepted_ack(client_seq, command, tick).rejected_reason is Unspecified,
        accepted_ack(client_seq, command, tick).cooldown_remaining_ms == 0,
        rejected_ack(client_seq, command, tick, reason, cooldown_ms).status is Rejected,
        rejected_ack(client_seq, command, tick, reason, cooldown_ms).client_seq == client_seq,
        rejected_ack(client_seq, command, tick, reason, cooldown_ms).command_type == command,
        rejected_ack(client_seq, command, tick, reason, cooldown_ms).applies_from_tick == tick,
        rejected_ack(client_seq, command, tick, reason, cooldown_ms).rejected_reason == reason,
        rejected_ack(client_seq, command, tick, reason, cooldown_ms).cooldown_remaining_ms
            == cooldown_ms,
{
}

/// An answer goes out under the number, holds what was answered, and its failure is told
/// apart from that of other messages.
pub proof fn answers_are_sent(
    a: StreamAction,
    seq: u64,
    command: ParticipantCommandAck,
    controls: ParticipantControlsAck,
)
    ensures
        answers_command(a, seq, command) ==> (a matches StreamAction::Send { event, on_failure }
            && event.server_seq == seq && (event.payload matches ParticipantServerPayload::CommandAck(
            sent,
        ) && sent == command) && on_failure is CommandAckSendFailed),
        answers_controls(a, seq, controls) ==> (a matches StreamAction::Send { event, on_failure }
            && event.server_seq == seq && (event.payload matches ParticipantServerPayload::Ack(
            sent,
        ) && sent == controls) && on_failure is AckSendFailed),
{
}

/// A stream that ends for a reason reports the status and that reason.
pub proof fn ending_reports_its_status(
    a: StreamAction,
    code: Code,
    message: Seq<char>,
    reason: CleanupReason,
)
    ensures
        finishes_with(a, code, message, reason) <==> (a matches StreamAction::Finish {
            status: Some(status),
            reason: given,
        } && status@.0 == code && status@.1 == message && given == reason),
{
}

/// A car that was put back on the track is held idle for half a second, or longer where it
/// was to be held longer; neither the lock nor anything else changes.
pub proof fn car_back_on_track_is_held_idle(s: StoreView, car_id: u64, now_ms: u64, other: u64)
    requires
        now_ms + 500 <= u64::MAX,
    ensures
        ({
            let before = s.pit(car_id);
            let after = with_back_to_track(s, car_id, now_ms).pit(car_id);
            &&& after.force_idle_until_ms >= now_ms + 500
            &&& after.force_idle_until_ms >= before.force_idle_until_ms
            &&& after.force_idle_until_ms == now_ms + 500 || after.force_idle_until_ms
                == before.force_idle_until_ms
            &&& after.emergency_lock_until_ms == before.emergency_lock_until_ms
            &&& after.emergency_intent_pending == before.emergency_intent_pending
            &&& after.pit_request_active == before.pit_request_active
            &&& after.history == before.history
            &&& after.next_pit_tire_type == before.next_pit_tire_type
            &&& after.was_fix_stationary_full_pit == before.was_fix_stationary_full_pit
            &&& after.last_pit_time_ms == before.last_pit_time_ms
            &&& after.last_pit_source == before.last_pit_source
            &&& after.last_pit_lap == before.last_pit_lap
            &&& other != car_id ==> with_back_to_track(s, car_id, now_ms).record(other) == s.record(
                other,
            )
        }),
{
}

/// A car that was sent to the pit in an emergency is locked for thirty seconds and held idle
/// for half of one, or longer where it was to be held longer; its next stop counts as an
/// emergency. Nothing else changes.
pub proof fn car_in_emergency_is_locked(s: StoreView, car_id: u64, now_ms: u64, other: u64)
    requires
        now_ms + 30_000 <= u64::MAX,
    ensures
        ({
            let before = s.pit(car_id);
            let after = with_emergency_pitstop(s, car_id, now_ms).pit(car_id);
            &&& after.emergency_intent_pending
            &&& after.emergency_lock_until_ms >= now_ms + 30_000
            &&& after.emergency_lock_until_ms >= before.emergency_lock_until_ms
            &&& after.emergency_lock_until_ms == now_ms + 30_000 || after.emergency_lock_until_ms
                == before.emergency_lock_until_ms
            &&& after.force_idle_until_ms >= now_ms + 500
            &&& after.force_idle_until_ms >= before.force_idle_until_ms
            &&& after.force_idle_until_ms == now_ms + 500 || after.force_idle_until_ms
                == before.force_idle_until_ms
            &&& after.pit_request_active == before.pit_request_active
            &&& after.history == before.history
            &&& after.next_pit_tire_type == before.next_pit_tire_type
            &&& after.was_fix_stationary_full_pit == before.was_fix_stationary_full_pit
            &&& after.last_pit_time_ms == before.last_pit_time_ms
            &&& after.last_pit_source == before.last_pit_source
            &&& after.last_pit_lap == before.last_pit_lap
            &&& other != car_id ==> with_emergency_pitstop(s, car_id, now_ms).record(other)
                == s.record(other)
        }),
{
}

/// Only a local race can be closed to its drivers, and a driver is locked exactly until the
/// lock of the own car has run out.
pub proof fn closed_and_locked_drivers(
    stream: ParticipantStream,
    store: StoreView,
    facts: StreamFacts,
)
    ensures
        stream.is_closed(facts) <==> stream.mode.local() && stream.target is LocalRace
            && facts.local_race_closed,
        stream.is_locked(store, facts) <==> store.pit(stream.car_id).emergency_lock_until_ms
            > facts.server_time_ms,
{
}

/// A stream stays the stream of its car: whatever happens, car, session, view, rate and map
/// are those that it began with.
pub proof fn stream_keeps_its_car(a: ParticipantStream, b: ParticipantStream)
    requires
        same_stream(a, b),
    ensures
        a.mode == b.mode,
        a.car_id == b.car_id,
        a.engine_car_id == b.engine_car_id,
        a.target@ == b.target@,
        a.rate == b.rate,
        a.resolved_view == b.resolved_view,
        a.view_downgrade_reason == b.view_downgrade_reason,
        a.map_id@ == b.map_id@,
{
}

/// Every other car of the session is shown to the driver, once, where it is and as the ghost
/// that it is; neither the own car nor a car of another session is.
pub proof fn all_opponents_are_shown(
    shown: Seq<ParticipantOpponentState>,
    cars: Seq<RuntimeCarFrame<VehicleState>>,
    car_id: u64,
    target: TargetView,
    i: int,
)
    requires
        are_opponents(shown, cars, car_id, target),
        cars_ascend(cars),
        0 <= i < cars.len(),
    ensures
        cars[i].public_car_id != car_id && cars[i].target@ == target ==> exists|k: int|
            {
                &&& 0 <= k < shown.len()
                &&& (#[trigger] shown[k]).car_id == cars[i].public_car_id
                &&& shown[k].kinematics.position == cars[i].state.telemetry.chassis_position
                &&& shown[k].kinematics.orientation
                    == cars[i].state.telemetry.vehicle_orientation
                &&& shown[k].ghost_mode.can_collide_now
                    == cars[i].state.telemetry.ghost_mode_runtime.can_collide_now
                &&& shown[k].ghost_mode.exit_delay_remaining_ms
                    == cars[i].state.telemetry.ghost_mode_runtime.exit_delay_remaining_ms
            },
        cars[i].public_car_id == car_id || cars[i].target@ != target ==> forall|k: int|
            0 <= k < shown.len() ==> (#[trigger] shown[k]).car_id != cars[i].public_car_id,
        forall|a: int, b: int|
            #![trigger shown[a], shown[b]]
            0 <= a < b < shown.len() ==> shown[a].car_id < shown[b].car_id,
{
    let places = choose|places: Seq<int>| are_opponents_at(shown, places, cars, car_id, target);
    if is_opponent(cars[i], car_id, target) {
        assert(places.contains(i));
        let k = choose|k: int| 0 <= k < places.len() && places[k] == i;
        assert(shows_opponent(shown[k], cars[places[k]]));
    } else {
        assert forall|k: int| 0 <= k < shown.len() implies (#[trigger] shown[k]).car_id
            != cars[i].public_car_id by {
            let p = places[k];
            assert(is_opponent(cars[p], car_id, target));
            if p < i {
                assert(cars[p].public_car_id < cars[i].public_car_id);
            } else if i < p {
                assert(cars[i].public_car_id < cars[p].public_car_id);
            }
        }
    }
    assert forall|a: int, b: int|
        #![trigger shown[a], shown[b]]
        0 <= a < b < shown.len() implies shown[a].car_id < shown[b].car_id by {
        assert(places[a] < places[b]);
        assert(cars[places[a]].public_car_id < cars[places[b]].public_car_id);
    }
}

} // verus!
