//! Cars and tracks as clients are shown them.

use vstd::prelude::*;
use crate::float_bits::F32Bits;
use crate::mappers::{
    gear_number, ghost_mode_state_from_runtime, ground_type_to_proto, has_tyre_signal,
    listed_blockers, pit_history_from_snapshot, pit_runtime_from_snapshot, shown_tyre,
    tire_telemetry_from_state, wire_phase, Gear, GhostModeRuntimeState, GhostModeState, GroundType,
    PerWheel, PitRuntimeState, TireTelemetry, TyreType, WireGroundType,
};
use crate::race::runtime_store::{
    RuntimeControlInputSnapshot, RuntimePitHistoryEntry, RuntimePitStateSnapshot,
    RuntimePitTireType,
};

verus! {

#[derive(Clone, Copy, PartialEq, Eq, Debug, Structural)]
pub struct Vector3 {
    pub x: F32Bits,
    pub y: F32Bits,
    pub z: F32Bits,
}

#[derive(Clone, Copy, PartialEq, Eq, Debug, Structural)]
pub struct Quaternion {
    pub x: F32Bits,
    pub y: F32Bits,
    pub z: F32Bits,
    pub w: F32Bits,
}

/// A car as the engine reports it.
#[derive(Clone, Copy, Debug)]
pub struct VehicleState {
    pub chassis_position: Vector3,
    pub vehicle_orientation: Quaternion,
    pub speed: F32Bits,
    pub engine_rpm: F32Bits,
    pub gear: Gear,
    pub ghost_mode_runtime: GhostModeRuntimeState,
    pub pitstop_zone_mask: u32,
    pub wheels_in_pitstop: u8,
    pub tyre_type: TyreType,
    pub tyre_health: PerWheel,
    pub tyre_temperature_celsius: PerWheel,
    pub tyre_slip: PerWheel,
    pub wheel_speeds: PerWheel,
    pub front_left_wheel_orientation_rad: F32Bits,
    pub front_right_wheel_orientation_rad: F32Bits,
}

/// Where a car is and how it stands.
#[derive(Clone, Copy, PartialEq, Eq, Debug, Structural)]
pub struct CarKinematics {
    pub position: Vector3,
    pub orientation: Quaternion,
}

pub open spec fn kinematics_of(state: VehicleState) -> CarKinematics {
    CarKinematics { position: state.chassis_position, orientation: state.vehicle_orientation }
}

pub fn participant_kinematics_from_state(state: &VehicleState) -> (r: CarKinematics)
    ensures
        r == kinematics_of(*state),
{
    CarKinematics { position: state.chassis_position, orientation: state.vehicle_orientation }
}

/// How long commands are held back.
#[derive(Clone, Copy, PartialEq, Eq, Debug, Structural)]
pub struct CommandCooldownState {
    pub back_to_track_remaining_ms: u32,
    pub emergency_pitstop_remaining_ms: u32,
}

/// What a driver is shown of a car.
#[derive(Debug)]
pub struct CarParticipantState {
    pub last_applied_client_seq: u64,
    pub speed_mps: F32Bits,
    pub engine_rpm: F32Bits,
    pub gear: i32,
    pub ghost_mode: GhostModeState,
    pub pitstop_zone_flags: u32,
    pub wheels_in_pitstop: u32,
    pub tires: TireTelemetry,
    pub pit_runtime: PitRuntimeState,
    pub pit_history: Vec<RuntimePitHistoryEntry>,
    pub next_pit_tire_type: RuntimePitTireType,
    pub command_cooldowns: CommandCooldownState,
}

/// The ghost mode is the one that the engine reports.
pub open spec fn shows_ghost_mode(r: GhostModeState, runtime: GhostModeRuntimeState) -> bool {
    &&& r.can_collide_now == runtime.can_collide_now
    &&& r.phase == wire_phase(runtime.phase)
    &&& r.blockers@ == listed_blockers(runtime.blockers)
    &&& r.exit_delay_remaining_ms == runtime.exit_delay_remaining_ms
}

/// The tyres as they are shown: not at all where the readings say nothing.
pub open spec fn tires_of(state: VehicleState) -> TireTelemetry {
    if has_tyre_signal(state.tyre_health, state.tyre_temperature_celsius, state.tyre_slip) {
        TireTelemetry {
            tire_type: shown_tyre(state.tyre_type),
            wear: Some(state.tyre_health),
            temperature_celsius: Some(state.tyre_temperature_celsius),
            slip: Some(state.tyre_slip),
        }
    } else {
        TireTelemetry {
            tire_type: RuntimePitTireType::Unspecified,
            wear: None,
            temperature_celsius: None,
            slip: None,
        }
    }
}

/// What a driver is shown is what the engine and the pit state report.
pub open spec fn shows_car(
    r: CarParticipantState,
    state: VehicleState,
    last_applied_client_seq: u64,
    pit_state: RuntimePitStateSnapshot,
    cooldowns: CommandCooldownState,
) -> bool {
    &&& r.last_applied_client_seq == last_applied_client_seq
    &&& r.speed_mps == state.speed
    &&& r.engine_rpm == state.engine_rpm
    &&& r.gear == match state.gear {
        Gear::Reverse => -1int,
        Gear::Neutral => 0int,
        Gear::Forward(n) => n as int,
    }
    &&& shows_ghost_mode(r.ghost_mode, state.ghost_mode_runtime)
    &&& r.pitstop_zone_flags == state.pitstop_zone_mask
    &&& r.wheels_in_pitstop == state.wheels_in_pitstop
    &&& r.tires == tires_of(state)
    &&& r.pit_runtime.pit_request_active == pit_state.pit_request_active
    &&& r.pit_runtime.emergency_lock_remaining_ms == pit_state.emergency_lock_remaining_ms
    &&& r.pit_runtime.last_pit_time_ms == pit_state.last_pit_time_ms
    &&& r.pit_runtime.last_pit_source == pit_state.last_pit_source
    &&& r.pit_runtime.last_pit_lap == pit_state.last_pit_lap
    &&& r.pit_history@ == pit_state.history@
    &&& r.next_pit_tire_type == pit_state.next_pit_tire_type
    &&& r.command_cooldowns == cooldowns
}

pub fn participant_telemetry_from_state(
    state: &VehicleState,
    last_applied_client_seq: u64,
    pit_state: &RuntimePitStateSnapshot,
    cooldowns: CommandCooldownState,
) -> (r: CarParticipantState)
    ensures
        shows_car(r, *state, last_applied_client_seq, *pit_state, cooldowns),
{
    CarParticipantState {
        last_applied_client_seq,
        speed_mps: state.speed,
        engine_rpm: state.engine_rpm,
        gear: gear_number(state.gear),
        ghost_mode: ghost_mode_state_from_runtime(&state.ghost_mode_runtime),
        pitstop_zone_flags: state.pitstop_zone_mask,
        wheels_in_pitstop: state.wheels_in_pitstop as u32,
        tires: tire_telemetry_from_state(
            state.tyre_type,
            state.tyre_health,
            state.tyre_temperature_celsius,
            state.tyre_slip,
        ),
        pit_runtime: pit_runtime_from_snapshot(pit_state),
        pit_history: pit_history_from_snapshot(pit_state),
        next_pit_tire_type: pit_state.next_pit_tire_type,
        command_cooldowns: cooldowns,
    }
}

/// How the wheels of a car are drawn.
#[derive(Clone, Copy, PartialEq, Eq, Debug, Structural)]
pub struct CarRenderState {
    pub wheel_speeds: PerWheel,
    pub front_left_wheel_orientation_rad: F32Bits,
    pub front_right_wheel_orientation_rad: F32Bits,
}

pub open spec fn render_of(state: VehicleState) -> CarRenderState {
    CarRenderState {
        wheel_speeds: state.wheel_speeds,
        front_left_wheel_orientation_rad: state.front_left_wheel_orientation_rad,
        front_right_wheel_orientation_rad: state.front_right_wheel_orientation_rad,
    }
}

pub fn render_state_from_state(state: &VehicleState) -> (r: CarRenderState)
    ensures
        r == render_of(*state),
{
    CarRenderState {
        wheel_speeds: state.wheel_speeds,
        front_left_wheel_orientation_rad: state.front_left_wheel_orientation_rad,
        front_right_wheel_orientation_rad: state.front_right_wheel_orientation_rad,
    }
}

/// The laps of a car as they are shown.
#[derive(Clone, Copy, PartialEq, Eq, Debug, Structural)]
pub struct LapTimes {
    pub current_lap_elapsed_ms: Option<u32>,
    pub last_lap_time_ms: Option<u32>,
    pub best_lap_time_ms: Option<u32>,
}

/// All that is shown of a car.
#[derive(Debug)]
pub struct FrontendCarFullState {
    pub car_id: u64,
    pub kinematics: CarKinematics,
    pub telemetry: CarParticipantState,
    pub render: CarRenderState,
    pub controls_input: RuntimeControlInputSnapshot,
    pub frontend_next_pit_tire_override: RuntimePitTireType,
    pub laps: LapTimes,
}

pub fn frontend_full_state(
    car_id: u64,
    state: &VehicleState,
    last_applied_client_seq: u64,
    pit_state: &RuntimePitStateSnapshot,
    cooldowns: CommandCooldownState,
    frontend_next_pit_tire_override: RuntimePitTireType,
    controls_input: RuntimeControlInputSnapshot,
    laps: LapTimes,
) -> (r: FrontendCarFullState)
    ensures
        r.car_id == car_id,
        r.kinematics == kinematics_of(*state),
        shows_car(r.telemetry, *state, last_applied_client_seq, *pit_state, cooldowns),
        r.render == render_of(*state),
        r.controls_input == controls_input,
        r.frontend_next_pit_tire_override == frontend_next_pit_tire_override,
        r.laps == laps,
{
    FrontendCarFullState {
        car_id,
        kinematics: participant_kinematics_from_state(state),
        telemetry: participant_telemetry_from_state(
            state,
            last_applied_client_seq,
            pit_state,
            cooldowns,
        ),
        render: render_state_from_state(state),
        controls_input,
        frontend_next_pit_tire_override,
        laps,
    }
}

/// What a driver is shown of the own car.
#[derive(Debug)]
pub struct ParticipantSelfState {
    pub car_id: u64,
    pub kinematics: CarKinematics,
    pub telemetry: CarParticipantState,
}

pub fn participant_self_state(
    car_id: u64,
    state: &VehicleState,
    last_applied_client_seq: u64,
    pit_state: &RuntimePitStateSnapshot,
    cooldowns: CommandCooldownState,
) -> (r: ParticipantSelfState)
    ensures
        r.car_id == car_id,
        r.kinematics == kinematics_of(*state),
        shows_car(r.telemetry, *state, last_applied_client_seq, *pit_state, cooldowns),
{
    ParticipantSelfState {
        car_id,
        kinematics: participant_kinematics_from_state(state),
        telemetry: participant_telemetry_from_state(
            state,
            last_applied_client_seq,
            pit_state,
            cooldowns,
        ),
    }
}

/// What a driver is shown of another car: nothing of its telemetry.
#[derive(Debug)]
pub struct ParticipantOpponentState {
    pub car_id: u64,
    pub kinematics: CarKinematics,
    pub ghost_mode: GhostModeState,
}

pub fn participant_opponent_state(car_id: u64, state: &VehicleState) -> (r:
    ParticipantOpponentState)
    ensures
        r.car_id == car_id,
        r.kinematics == kinematics_of(*state),
        shows_ghost_mode(r.ghost_mode, state.ghost_mode_runtime),
{
    ParticipantOpponentState {
        car_id,
        kinematics: participant_kinematics_from_state(state),
        ghost_mode: ghost_mode_state_from_runtime(&state.ghost_mode_runtime),
    }
}

/// A strip of ground beside the centre line.
#[derive(Clone, Copy, PartialEq, Eq, Debug, Structural)]
pub struct GroundWidth {
    pub width: F32Bits,
    pub ground_type: GroundType,
}

/// A strip of ground on the wire.
#[derive(Clone, Copy, PartialEq, Eq, Debug, Structural)]
pub struct WireGroundWidth {
    pub width_m: F32Bits,
    pub ground_type: WireGroundType,
}

/// The ground as it is shown: sand counts as gravel.
pub open spec fn ground_on_wire(ground: GroundWidth) -> WireGroundWidth {
    WireGroundWidth {
        width_m: ground.width,
        ground_type: match ground.ground_type {
            GroundType::Asphalt => WireGroundType::Asphalt,
            GroundType::Grass => WireGroundType::Grass,
            GroundType::Sand => WireGroundType::Gravel,
            GroundType::Gravel => WireGroundType::Gravel,
            GroundType::Wall => WireGroundType::Wall,
            GroundType::Kerb => WireGroundType::Kerb,
        },
    }
}

pub open spec fn grounds_on_wire(grounds: Seq<GroundWidth>) -> Seq<WireGroundWidth> {
    grounds.map_values(|ground: GroundWidth| ground_on_wire(ground))
}

pub fn ground_width_to_proto(ground: GroundWidth) -> (r: WireGroundWidth)
    ensures
        r == ground_on_wire(ground),
{
    WireGroundWidth {
        width_m: ground.width,
        ground_type: ground_type_to_proto(ground.ground_type),
    }
}

fn ground_widths_to_proto(grounds: &Vec<GroundWidth>) -> (r: Vec<WireGroundWidth>)
    ensures
        r@ == grounds_on_wire(grounds@),
{
    let mut r: Vec<WireGroundWidth> = Vec::new();
    let mut n: usize = 0;
    while n < grounds.len()
        invariant
            n <= grounds@.len(),
            r@.len() == n,
            forall|i: int| 0 <= i < n ==> #[trigger] r@[i] == ground_on_wire(grounds@[i]),
        decreases grounds@.len() - n,
    {
        r.push(ground_width_to_proto(grounds[n]));
        n += 1;
    }
    proof {
        assert(r@ =~= grounds_on_wire(grounds@));
    }
    r
}

/// The course of the centre line at a point.
#[derive(Clone, Copy, PartialEq, Eq, Debug, Structural)]
pub struct CenterlineCourse {
    pub s_m: F32Bits,
    pub position: Vector3,
    pub tangent: Vector3,
    pub normal: Vector3,
    pub right: Vector3,
    pub left_width_m: F32Bits,
    pub right_width_m: F32Bits,
    pub curvature_1pm: F32Bits,
    pub grade_rad: F32Bits,
    pub bank_rad: F32Bits,
    pub max_left_width_m: F32Bits,
    pub max_right_width_m: F32Bits,
}

/// A point of the centre line and the ground beside it.
#[derive(Debug)]
pub struct CenterlineSample {
    pub course: CenterlineCourse,
    pub left_grounds: Vec<GroundWidth>,
    pub right_grounds: Vec<GroundWidth>,
}

/// A point of the centre line on the wire.
#[derive(Debug)]
pub struct WireCenterlineSample {
    pub course: CenterlineCourse,
    pub left_grounds: Vec<WireGroundWidth>,
    pub right_grounds: Vec<WireGroundWidth>,
}

pub open spec fn shows_sample(r: WireCenterlineSample, sample: CenterlineSample) -> bool {
    &&& r.course == sample.course
    &&& r.left_grounds@ == grounds_on_wire(sample.left_grounds@)
    &&& r.right_grounds@ == grounds_on_wire(sample.right_grounds@)
}

/// Each point is shown, in order.
pub open spec fn shows_samples(r: Seq<WireCenterlineSample>, samples: Seq<CenterlineSample>) -> bool {
    r.len() == samples.len() && forall|i: int|
        0 <= i < r.len() ==> shows_sample(#[trigger] r[i], samples[i])
}

pub fn centerline_sample_to_proto(sample: &CenterlineSample) -> (r: WireCenterlineSample)
    ensures
        shows_sample(r, *sample),
{
    WireCenterlineSample {
        course: sample.course,
        left_grounds: ground_widths_to_proto(&sample.left_grounds),
        right_grounds: ground_widths_to_proto(&sample.right_grounds),
    }
}

fn centerline_samples_to_proto(samples: &Vec<CenterlineSample>) -> (r: Vec<WireCenterlineSample>)
    ensures
        shows_samples(r@, samples@),
{
    let mut r: Vec<WireCenterlineSample> = Vec::new();
    let mut n: usize = 0;
    while n < samples.len()
        invariant
            n <= samples@.len(),
            r@.len() == n,
            forall|i: int| 0 <= i < n ==> shows_sample(#[trigger] r@[i], samples@[i]),
        decreases samples@.len() - n,
    {
        r.push(centerline_sample_to_proto(&samples[n]));
        n += 1;
    }
    r
}

/// The track as the engine knows it.
#[derive(Debug)]
pub struct TrackData {
    pub map_id: String,
    pub lap_length_m: F32Bits,
    pub centerline_samples: Vec<CenterlineSample>,
    pub pit_enter_samples: Vec<CenterlineSample>,
    pub pit_fix_samples: Vec<CenterlineSample>,
    pub pit_exit_samples: Vec<CenterlineSample>,
    pub pit_length_m: F32Bits,
}

/// The track on the wire.
#[derive(Debug)]
pub struct WireTrackData {
    pub map_id: String,
    pub lap_length_m: F32Bits,
    pub centerline_samples: Vec<WireCenterlineSample>,
    pub pit_enter_samples: Vec<WireCenterlineSample>,
    pub pit_fix_samples: Vec<WireCenterlineSample>,
    pub pit_exit_samples: Vec<WireCenterlineSample>,
    pub pit_length_m: F32Bits,
}

pub fn track_data_to_proto(track: TrackData) -> (r: WireTrackData)
    ensures
        r.map_id == track.map_id,
        r.lap_length_m == track.lap_length_m,
        shows_samples(r.centerline_samples@, track.centerline_samples@),
        shows_samples(r.pit_enter_samples@, track.pit_enter_samples@),
        shows_samples(r.pit_fix_samples@, track.pit_fix_samples@),
        shows_samples(r.pit_exit_samples@, track.pit_exit_samples@),
        r.pit_length_m == track.pit_length_m,
{
    let centerline_samples: Vec<WireCenterlineSample> = centerline_samples_to_proto(
        &track.centerline_samples,
    );
    let pit_enter_samples: Vec<WireCenterlineSample> = centerline_samples_to_proto(
        &track.pit_enter_samples,
    );
    let pit_fix_samples: Vec<WireCenterlineSample> = centerline_samples_to_proto(
        &track.pit_fix_samples,
    );
    let pit_exit_samples: Vec<WireCenterlineSample> = centerline_samples_to_proto(
        &track.pit_exit_samples,
    );
    WireTrackData {
        map_id: track.map_id,
        lap_length_m: track.lap_length_m,
        centerline_samples,
        pit_enter_samples,
        pit_fix_samples,
        pit_exit_samples,
        pit_length_m: track.pit_length_m,
    }
}

/// What is shown of a car is what is reported of it, each reading as itself.
pub proof fn car_is_shown_as_reported(
    r: CarParticipantState,
    state: VehicleState,
    last_applied_client_seq: u64,
    pit_state: RuntimePitStateSnapshot,
    cooldowns: CommandCooldownState,
)
    requires
        shows_car(r, state, last_applied_client_seq, pit_state, cooldowns),
    ensures
        r.last_applied_client_seq == last_applied_client_seq,
        r.speed_mps == state.speed,
        r.engine_rpm == state.engine_rpm,
        state.gear is Reverse ==> r.gear == -1,
        state.gear is Neutral ==> r.gear == 0,
        state.gear matches Gear::Forward(n) ==> r.gear == n,
        r.ghost_mode.can_collide_now == state.ghost_mode_runtime.can_collide_now,
        r.ghost_mode.exit_delay_remaining_ms == state.ghost_mode_runtime.exit_delay_remaining_ms,
        r.pitstop_zone_flags == state.pitstop_zone_mask,
        r.wheels_in_pitstop == state.wheels_in_pitstop,
        r.tires.wear matches Some(wear) ==> wear == state.tyre_health,
        r.tires.temperature_celsius matches Some(temperature) ==> temperature
            == state.tyre_temperature_celsius,
        r.tires.slip matches Some(slip) ==> slip == state.tyre_slip,
        r.tires.wear is Some <==> has_tyre_signal(
            state.tyre_health,
            state.tyre_temperature_celsius,
            state.tyre_slip,
        ),
        r.tires.wear is Some <==> r.tires.tire_type !is Unspecified,
        r.tires.wear is Some <==> r.tires.temperature_celsius is Some,
        r.tires.wear is Some <==> r.tires.slip is Some,
        r.pit_runtime.pit_request_active == pit_state.pit_request_active,
        r.pit_runtime.emergency_lock_remaining_ms == pit_state.emergency_lock_remaining_ms,
        r.pit_runtime.last_pit_time_ms == pit_state.last_pit_time_ms,
        r.pit_runtime.last_pit_source == pit_state.last_pit_source,
        r.pit_runtime.last_pit_lap == pit_state.last_pit_lap,
        r.pit_history@ == pit_state.history@,
        r.next_pit_tire_type == pit_state.next_pit_tire_type,
        r.command_cooldowns.back_to_track_remaining_ms == cooldowns.back_to_track_remaining_ms,
        r.command_cooldowns.emergency_pitstop_remaining_ms
            == cooldowns.emergency_pitstop_remaining_ms,
{
}

/// A car is shown where it is and how it stands, and its wheels as they turn.
pub proof fn car_is_drawn_where_it_is(state: VehicleState)
    ensures
        kinematics_of(state).position == state.chassis_position,
        kinematics_of(state).orientation == state.vehicle_orientation,
        render_of(state).wheel_speeds == state.wheel_speeds,
        render_of(state).front_left_wheel_orientation_rad
            == state.front_left_wheel_orientation_rad,
        render_of(state).front_right_wheel_orientation_rad
            == state.front_right_wheel_orientation_rad,
{
}

/// Each strip of ground beside each point of a line is shown on its side, with its width and
/// as the ground that it is; sand is shown as gravel.
pub proof fn ground_is_shown_on_its_side(
    r: Seq<WireCenterlineSample>,
    samples: Seq<CenterlineSample>,
    i: int,
    k: int,
)
    requires
        shows_samples(r, samples),
        0 <= i < samples.len(),
    ensures
        r.len() == samples.len(),
        r[i].course == samples[i].course,
        r[i].left_grounds@.len() == samples[i].left_grounds@.len(),
        r[i].right_grounds@.len() == samples[i].right_grounds@.len(),
        0 <= k < samples[i].left_grounds@.len() ==> {
            let shown = r[i].left_grounds@[k];
            let ground = samples[i].left_grounds@[k];
            &&& shown.width_m == ground.width
            &&& shown.ground_type is Asphalt <==> ground.ground_type is Asphalt
            &&& shown.ground_type is Grass <==> ground.ground_type is Grass
            &&& shown.ground_type is Wall <==> ground.ground_type is Wall
            &&& shown.ground_type is Kerb <==> ground.ground_type is Kerb
        },
        0 <= k < samples[i].right_grounds@.len() ==> {
            let shown = r[i].right_grounds@[k];
            let ground = samples[i].right_grounds@[k];
            &&& shown.width_m == ground.width
            &&& shown.ground_type is Asphalt <==> ground.ground_type is Asphalt
            &&& shown.ground_type is Grass <==> ground.ground_type is Grass
            &&& shown.ground_type is Wall <==> ground.ground_type is Wall
            &&& shown.ground_type is Kerb <==> ground.ground_type is Kerb
        },
{
    assert(shows_sample(r[i], samples[i]));
}

/// A ghost mode is shown with whether the car can collide, its phase, all that holds it up and
/// the time until it ends; an opponent's too.
pub proof fn ghost_mode_is_shown_in_full(r: GhostModeState, runtime: GhostModeRuntimeState)
    requires
        shows_ghost_mode(r, runtime),
    ensures
        r.can_collide_now == runtime.can_collide_now,
        r.phase == wire_phase(runtime.phase),
        r.blockers@ == listed_blockers(runtime.blockers),
        r.exit_delay_remaining_ms == runtime.exit_delay_remaining_ms,
{
}

} // verus!
